//! Reachability checks of a worker's public ports: which host and ports are
//! probed, how a probe's outcome is read, and the record that is stored.
use vstd::prelude::*;
use crate::json::{json_str_at, json_text_accepted, json_u64_at, parse_json, str_at, u64_at};
use crate::models::WorkerListing;
use crate::stamps::{is_utc_stamp, now_rfc3339};
use crate::text::{
    chars_of, find_char, find_char_in, find_seq, find_seq_in, is_white_space,
    lemma_find_char_from_bounds, lemma_find_seq_from_bounds, lemma_rfind_char_bounds,
    lemma_strip_leading_ws_concat, lemma_strip_leading_ws_suffix, lemma_strip_trailing_ws_concat,
    lemma_strip_trailing_ws_prefix, lemma_trimmed_without_white_space, rfind_char, rfind_char_in,
    slice_chars, strip_leading_ws, strip_trailing_ws, trim, trimmed,
};

verus! {

/// The separator between a URL's scheme and the rest.
pub open spec fn scheme_separator() -> Seq<char> {
    seq![':', '/', '/']
}

/// The part of `s` after the first `://`, or all of `s` when there is none.
pub open spec fn after_scheme(s: Seq<char>) -> Seq<char> {
    match find_seq(s, scheme_separator()) {
        Some(i) => s.skip(i + 3),
        None => s,
    }
}

/// The part of `s` before its first `/`.
pub open spec fn before_first_slash(s: Seq<char>) -> Seq<char> {
    match find_char(s, '/') {
        Some(i) => s.take(i),
        None => s,
    }
}

/// The part of `s` after its last `@` (drops `user@`).
pub open spec fn after_last_at(s: Seq<char>) -> Seq<char> {
    match rfind_char(s, '@') {
        Some(i) => s.skip(i + 1),
        None => s,
    }
}

/// `host:port` without the port: when `s` holds a `:`, the part up to and
/// including its first `]` if it has one (an IPv6 literal), else the part
/// before its last `:`.
pub open spec fn without_port(s: Seq<char>) -> Seq<char> {
    match rfind_char(s, ':') {
        Some(idx) => match find_char(s, ']') {
            Some(end) => s.take(end + 1),
            None => s.take(idx),
        },
        None => s,
    }
}

/// The host named by a worker URL.
pub open spec fn url_host(url: Seq<char>) -> Seq<char> {
    without_port(after_last_at(before_first_slash(after_scheme(trimmed(url)))))
}

fn after_scheme_of(s: &str) -> (res: String)
    ensures
        res@ == after_scheme(s@),
{
    let v = chars_of(s);
    let mut sep: Vec<char> = Vec::new();
    sep.push(':');
    sep.push('/');
    sep.push('/');
    assert(sep@ =~= scheme_separator());
    match find_seq_in(&v, &sep) {
        Some(i) => {
            proof {
                lemma_find_seq_from_bounds(v@, sep@, 0);
                assert(find_seq(v@, sep@) == Some(i as int));
                assert(i + sep@.len() <= v@.len());
            }
            assert(i + 3 <= v.len());
            slice_chars(s, i + 3, v.len())
        },
        None => slice_chars(s, 0, v.len()),
    }
}

fn before_first_slash_of(s: &str) -> (res: String)
    ensures
        res@ == before_first_slash(s@),
{
    let v = chars_of(s);
    proof {
        lemma_find_char_from_bounds(v@, '/', 0);
    }
    match find_char_in(&v, '/', 0) {
        Some(i) => slice_chars(s, 0, i),
        None => slice_chars(s, 0, v.len()),
    }
}

fn after_last_at_of(s: &str) -> (res: String)
    ensures
        res@ == after_last_at(s@),
{
    let v = chars_of(s);
    proof {
        lemma_rfind_char_bounds(v@, '@');
    }
    match rfind_char_in(&v, '@') {
        Some(i) => {
            assert(rfind_char(v@, '@') == Some(i as int));
            assert(i < v.len());
            slice_chars(s, i + 1, v.len())
        },
        None => slice_chars(s, 0, v.len()),
    }
}

fn without_port_of(s: &str) -> (res: String)
    ensures
        res@ == without_port(s@),
{
    let v = chars_of(s);
    proof {
        lemma_rfind_char_bounds(v@, ':');
        lemma_find_char_from_bounds(v@, ']', 0);
    }
    match rfind_char_in(&v, ':') {
        Some(idx) => match find_char_in(&v, ']', 0) {
            Some(end) => {
                assert(find_char(v@, ']') == Some(end as int));
                assert(end < v.len());
                slice_chars(s, 0, end + 1)
            },
            None => slice_chars(s, 0, idx),
        },
        None => slice_chars(s, 0, v.len()),
    }
}

/// The host part of a worker URL: surrounding white space, the scheme, the
/// path, any `user@` and any `:port` are dropped.
pub fn host_from_url(url: &str) -> (res: String)
    ensures
        res@ == url_host(url@),
{
    let s = trim(url);
    let s = after_scheme_of(s.as_str());
    let s = before_first_slash_of(s.as_str());
    let s = after_last_at_of(s.as_str());
    without_port_of(s.as_str())
}

/// Law: the host taken from a URL never holds a `/` or an `@`.
pub proof fn host_has_no_slash_or_at(url: Seq<char>)
    ensures
        forall|k: int| 0 <= k < url_host(url).len() ==> url_host(url)[k] != '/' && url_host(url)[k] != '@',
{
    let a = after_scheme(trimmed(url));
    let b = before_first_slash(a);
    lemma_find_char_from_bounds(a, '/', 0);
    assert(forall|k: int| 0 <= k < b.len() ==> b[k] != '/');
    let c = after_last_at(b);
    lemma_rfind_char_bounds(b, '@');
    assert(forall|k: int| 0 <= k < c.len() ==> c[k] != '/' && c[k] != '@');
    let d = without_port(c);
    lemma_rfind_char_bounds(c, ':');
    lemma_find_char_from_bounds(c, ']', 0);
    assert(forall|k: int| 0 <= k < d.len() ==> d[k] == c[k]);
}

/// `s` does not hold `c`.
pub open spec fn lacks(s: Seq<char>, c: char) -> bool {
    forall|i: int| 0 <= i < s.len() ==> s[i] != c
}

/// A bare host name or address: not empty, without white space and without
/// any of `:`, `/`, `@`, `[`, `]`.
pub open spec fn is_bare_host(h: Seq<char>) -> bool {
    &&& h.len() > 0
    &&& forall|i: int| 0 <= i < h.len() ==> !is_white_space(#[trigger] h[i])
    &&& lacks(h, ':') && lacks(h, '/') && lacks(h, '@') && lacks(h, '[') && lacks(h, ']')
}

/// Decimal digits only (a port number as written).
pub open spec fn is_digits(p: Seq<char>) -> bool {
    forall|i: int| 0 <= i < p.len() ==> '0' <= #[trigger] p[i] <= '9'
}

/// A URL path: empty or starting with `/`.
pub open spec fn is_path(path: Seq<char>) -> bool {
    path.len() == 0 || path[0] == '/'
}

proof fn lemma_first_separator(s: Seq<char>, k: int)
    requires
        0 <= k,
        k + 3 <= s.len(),
        s.subrange(k, k + 3) == scheme_separator(),
        forall|i: int| 0 <= i <= k ==> s[i] != '/',
    ensures
        find_seq(s, scheme_separator()) == Some(k),
{
    let sep = scheme_separator();
    lemma_find_seq_from_bounds(s, sep, 0);
    assert forall|j: int| 0 <= j < k implies #[trigger] s.subrange(j, j + 3) != sep by {
        assert(s.subrange(j, j + 3)[1] == s[j + 1]);
        assert(sep[1] == '/');
    }
}

proof fn lemma_after_scheme_of_prefixed(sch: Seq<char>, r: Seq<char>)
    requires
        lacks(sch, '/'),
    ensures
        after_scheme(sch + scheme_separator() + r) == r,
{
    let sep = scheme_separator();
    let s = sch + sep + r;
    let k = sch.len() as int;
    assert(s.subrange(k, k + 3) =~= sep);
    assert forall|i: int| 0 <= i <= k implies s[i] != '/' by {
        if i < k {
            assert(s[i] == sch[i]);
        } else {
            assert(s[i] == sep[0]);
        }
    }
    lemma_first_separator(s, k);
    assert(s.skip(k + 3) =~= r);
}

proof fn lemma_after_scheme_without_slash(s: Seq<char>)
    requires
        lacks(s, '/'),
    ensures
        after_scheme(s) == s,
{
    let sep = scheme_separator();
    lemma_find_seq_from_bounds(s, sep, 0);
    if let Some(k) = find_seq(s, sep) {
        assert(s.subrange(k, k + 3)[1] == s[k + 1]);
    }
}

proof fn lemma_before_first_slash_of(x: Seq<char>, path: Seq<char>)
    requires
        lacks(x, '/'),
        is_path(path),
    ensures
        before_first_slash(x + path) == x,
{
    let s = x + path;
    lemma_find_char_from_bounds(s, '/', 0);
    if path.len() > 0 {
        assert(s[x.len() as int] == '/');
        assert(find_char(s, '/') == Some(x.len() as int));
        assert(s.take(x.len() as int) =~= x);
    } else {
        assert(s =~= x);
    }
}

proof fn lemma_after_last_at_of(u: Seq<char>, y: Seq<char>)
    requires
        lacks(y, '@'),
    ensures
        after_last_at(u + seq!['@'] + y) == y,
        lacks(u, '@') ==> after_last_at(u) == u,
{
    let s = u + seq!['@'] + y;
    let k = u.len() as int;
    lemma_rfind_char_bounds(s, '@');
    assert(s[k] == '@');
    assert forall|j: int| k < j < s.len() implies s[j] != '@' by {
        assert(s[j] == y[j - k - 1]);
    }
    assert(rfind_char(s, '@') == Some(k));
    assert(s.skip(k + 1) =~= y);
    lemma_rfind_char_bounds(u, '@');
}

proof fn lemma_without_port_of(h: Seq<char>, p: Seq<char>)
    requires
        is_bare_host(h),
        is_digits(p),
    ensures
        without_port(h + seq![':'] + p) == h,
        without_port(h) == h,
{
    let s = h + seq![':'] + p;
    let k = h.len() as int;
    lemma_rfind_char_bounds(s, ':');
    lemma_find_char_from_bounds(s, ']', 0);
    assert(s[k] == ':');
    assert forall|j: int| k < j < s.len() implies s[j] != ':' by {
        assert(s[j] == p[j - k - 1]);
        assert('0' <= p[j - k - 1] <= '9');
    }
    assert(rfind_char(s, ':') == Some(k));
    assert forall|j: int| 0 <= j < s.len() implies s[j] != ']' by {
        if j < k {
            assert(s[j] == h[j]);
        } else if j > k {
            assert(s[j] == p[j - k - 1]);
            assert('0' <= p[j - k - 1] <= '9');
        }
    }
    assert(find_char(s, ']') is None);
    assert(s.take(k) =~= h);
    lemma_rfind_char_bounds(h, ':');
}

/// Law: the host of a URL built around a bare host `h` is `h`: for
/// `<sch>://<user>@<h>:<port><path>`, for `<sch>://<h><path>` and for
/// `<h>:<port>`, where the scheme holds no `/`, the user part no `/` or `@`,
/// the port is digits and the path is empty or starts with `/`.
pub proof fn host_of_built_url(sch: Seq<char>, user: Seq<char>, h: Seq<char>, port: Seq<char>, path: Seq<char>)
    requires
        lacks(sch, '/'),
        lacks(user, '/'),
        lacks(user, '@'),
        is_bare_host(h),
        is_digits(port),
        is_path(path),
    ensures
        url_host(sch + scheme_separator() + user + seq!['@'] + h + seq![':'] + port + path) == h,
        url_host(sch + scheme_separator() + h + path) == h,
        url_host(h + seq![':'] + port) == h,
{
    let sep = scheme_separator();
    let hp = h + seq![':'] + port;
    assert(lacks(hp, '@') && lacks(hp, '/')) by {
        assert forall|j: int| 0 <= j < hp.len() implies hp[j] != '@' && hp[j] != '/' by {
            if j < h.len() {
                assert(hp[j] == h[j]);
            } else if j > h.len() {
                assert(hp[j] == port[j - h.len() - 1]);
                assert('0' <= port[j - h.len() - 1] <= '9');
            }
        }
    }
    lemma_without_port_of(h, port);
    lemma_strip_leading_ws_suffix(sch);
    lemma_strip_trailing_ws_prefix(path);
    let sch2 = strip_leading_ws(sch);
    let path2 = strip_trailing_ws(path);
    assert(lacks(sch2, '/')) by {
        assert forall|j: int| 0 <= j < sch2.len() implies sch2[j] != '/' by {
            assert(sch2[j] == sch[sch.len() - sch2.len() + j]);
        }
    }
    assert(is_path(path2)) by {
        if path2.len() > 0 {
            assert(path2[0] == path[0]);
        }
    }
    // <sch>://<user>@<h>:<port><path>
    let x = user + seq!['@'] + hp;
    assert(lacks(x, '/')) by {
        assert forall|j: int| 0 <= j < x.len() implies x[j] != '/' by {
            if j < user.len() {
                assert(x[j] == user[j]);
            } else if j > user.len() {
                assert(x[j] == hp[j - user.len() - 1]);
            }
        }
    }
    let full = sch + sep + user + seq!['@'] + h + seq![':'] + port + path;
    assert(full =~= sch + (sep + x + path));
    lemma_strip_leading_ws_concat(sch, sep + x + path);
    let a = sch2 + sep + x;
    assert(sch2 + (sep + x + path) =~= a + path);
    assert(a.last() == x.last());
    assert(!is_white_space(x.last())) by {
        if port.len() > 0 {
            assert(x.last() == port.last());
            assert('0' <= port[port.len() - 1] <= '9');
        } else {
            assert(x.last() == ':');
        }
    }
    lemma_strip_trailing_ws_concat(a, path);
    assert(trimmed(full) == sch2 + sep + (x + path2)) by {
        assert(a + path2 =~= sch2 + sep + (x + path2));
    }
    lemma_after_scheme_of_prefixed(sch2, x + path2);
    lemma_before_first_slash_of(x, path2);
    lemma_after_last_at_of(user, hp);
    assert(x =~= user + seq!['@'] + hp);
    // <sch>://<h><path>
    let short = sch + sep + h + path;
    assert(short =~= sch + (sep + h + path));
    lemma_strip_leading_ws_concat(sch, sep + h + path);
    let a2 = sch2 + sep + h;
    assert(sch2 + (sep + h + path) =~= a2 + path);
    assert(a2.last() == h.last());
    assert(!is_white_space(h[h.len() - 1]));
    lemma_strip_trailing_ws_concat(a2, path);
    assert(trimmed(short) == sch2 + sep + (h + path2)) by {
        assert(a2 + path2 =~= sch2 + sep + (h + path2));
    }
    lemma_after_scheme_of_prefixed(sch2, h + path2);
    lemma_before_first_slash_of(h, path2);
    lemma_after_last_at_of(h, Seq::empty());
    // <h>:<port>
    assert forall|j: int| 0 <= j < hp.len() implies !is_white_space(#[trigger] hp[j]) by {
        if j < h.len() {
            assert(hp[j] == h[j]);
        } else if j > h.len() {
            assert(hp[j] == port[j - h.len() - 1]);
            assert('0' <= port[j - h.len() - 1] <= '9');
        }
    }
    lemma_trimmed_without_white_space(hp);
    lemma_after_scheme_without_slash(hp);
    lemma_before_first_slash_of(hp, Seq::empty());
    assert(hp + Seq::<char>::empty() =~= hp);
    lemma_after_last_at_of(hp, Seq::empty());
}

proof fn lemma_after_scheme_is_suffix(s: Seq<char>) -> (k: int)
    ensures
        0 <= k <= s.len(),
        after_scheme(s) == s.skip(k),
{
    lemma_find_seq_from_bounds(s, scheme_separator(), 0);
    match find_seq(s, scheme_separator()) {
        Some(i) => i + 3,
        None => {
            assert(s.skip(0) =~= s);
            0
        },
    }
}

proof fn lemma_before_first_slash_is_prefix(s: Seq<char>) -> (k: int)
    ensures
        0 <= k <= s.len(),
        before_first_slash(s) == s.take(k),
{
    lemma_find_char_from_bounds(s, '/', 0);
    match find_char(s, '/') {
        Some(i) => i,
        None => {
            assert(s.take(s.len() as int) =~= s);
            s.len() as int
        },
    }
}

proof fn lemma_after_last_at_is_suffix(s: Seq<char>) -> (k: int)
    ensures
        0 <= k <= s.len(),
        after_last_at(s) == s.skip(k),
{
    lemma_rfind_char_bounds(s, '@');
    match rfind_char(s, '@') {
        Some(i) => i + 1,
        None => {
            assert(s.skip(0) =~= s);
            0
        },
    }
}

proof fn lemma_without_port_is_prefix(s: Seq<char>) -> (k: int)
    ensures
        0 <= k <= s.len(),
        without_port(s) == s.take(k),
{
    lemma_rfind_char_bounds(s, ':');
    lemma_find_char_from_bounds(s, ']', 0);
    match rfind_char(s, ':') {
        Some(idx) => match find_char(s, ']') {
            Some(end) => end + 1,
            None => idx,
        },
        None => {
            assert(s.take(s.len() as int) =~= s);
            s.len() as int
        },
    }
}

/// Law: the host taken from a URL is one unbroken piece of the URL without
/// its surrounding white space.
pub proof fn host_is_a_piece_of_the_url(url: Seq<char>)
    ensures
        exists|i: int|
            0 <= i && i + url_host(url).len() <= trimmed(url).len() && #[trigger] trimmed(url).subrange(
                i,
                i + url_host(url).len(),
            ) == url_host(url),
{
    let t = trimmed(url);
    let a = lemma_after_scheme_is_suffix(t);
    let x = t.skip(a);
    let b = lemma_before_first_slash_is_prefix(x);
    let y = x.take(b);
    let c = lemma_after_last_at_is_suffix(y);
    let z = y.skip(c);
    let d = lemma_without_port_is_prefix(z);
    assert(url_host(url) == z.take(d));
    assert(z.take(d) =~= t.subrange(a + c, a + c + d));
    assert(t.subrange(a + c, a + c + url_host(url).len()) == url_host(url));
}

/// How long a TCP connection attempt may take, in milliseconds.
pub const TCP_CONNECT_TIMEOUT_MS: u64 = 3000;

/// How long to wait for an answer to the UDP probe, in milliseconds.
pub const UDP_REPLY_WAIT_MS: u64 = 800;

/// A listed worker whose ports are checked.
#[derive(Clone, Debug)]
pub struct PortCheck {
    pub worker_id: String,
    pub url: String,
    /// Whether the worker was ever polled, so that its last report can name
    /// its host and ports.
    pub read_latest_report: bool,
}

/// Whether a listed worker's ports are checked: it has an id.
pub open spec fn is_checked(l: WorkerListing) -> bool {
    l.id@.len() > 0
}

pub open spec fn check_of(l: WorkerListing) -> (Seq<char>, Seq<char>, bool) {
    (l.id@, l.url@, l.latest is Some)
}

pub open spec fn check_view(c: PortCheck) -> (Seq<char>, Seq<char>, bool) {
    (c.worker_id@, c.url@, c.read_latest_report)
}

/// The workers whose ports are checked, in list order.
pub fn port_checks(listings: &Vec<WorkerListing>) -> (res: Vec<PortCheck>)
    ensures
        res@.map_values(|c: PortCheck| check_view(c)) == listings@.filter(|l: WorkerListing| is_checked(l)).map_values(
            |l: WorkerListing| check_of(l),
        ),
{
    let ghost pred = |l: WorkerListing| is_checked(l);
    let ghost cv = |c: PortCheck| check_view(c);
    let ghost lv = |l: WorkerListing| check_of(l);
    let mut res: Vec<PortCheck> = Vec::new();
    let mut i: usize = 0;
    while i < listings.len()
        invariant
            i <= listings.len(),
            pred == (|l: WorkerListing| is_checked(l)),
            cv == (|c: PortCheck| check_view(c)),
            lv == (|l: WorkerListing| check_of(l)),
            res@.map_values(cv) == listings@.take(i as int).filter(pred).map_values(lv),
        decreases listings.len() - i,
    {
        let l = &listings[i];
        proof {
            reveal_with_fuel(Seq::filter, 1);
            assert(listings@.take(i + 1).drop_last() =~= listings@.take(i as int));
            assert(listings@.take(i + 1).last() == listings@[i as int]);
        }
        let ghost before = res@;
        let ghost prev = listings@.take(i as int).filter(pred);
        if !l.id.as_str().is_empty() {
            res.push(
                PortCheck {
                    worker_id: l.id.clone(),
                    url: l.url.clone(),
                    read_latest_report: l.latest.is_some(),
                },
            );
            proof {
                assert(is_checked(listings@[i as int]));
                assert(listings@.take(i + 1).filter(pred) == prev.push(listings@[i as int]));
                assert(res@.map_values(cv) =~= before.map_values(cv).push(cv(res@.last())));
                assert(prev.push(listings@[i as int]).map_values(lv) =~= prev.map_values(lv).push(
                    lv(listings@[i as int]),
                ));
            }
        } else {
            proof {
                assert(!is_checked(listings@[i as int]));
                assert(listings@.take(i + 1).filter(pred) == prev);
            }
        }
        i = i + 1;
    }
    assert(listings@.take(listings.len() as int) =~= listings@);
    res
}

/// The host and ports of a worker that are probed.
#[derive(Clone, Debug)]
pub struct PortTargets {
    pub host: String,
    pub public_port: u16,
    pub socks5_port: u16,
    pub http_port: u16,
    pub wg_port: u16,
}

/// Whether a worker's last report can be read: there is one, it is not
/// empty, and it is JSON.
pub open spec fn report_readable(report: Option<Seq<char>>) -> bool {
    report matches Some(t) && t.len() > 0 && json_text_accepted(t)
}

/// A port named at `pointer` in a report: the number there cut to 16 bits
/// (`as u16`), or 0 when no such number stands there.
pub open spec fn report_port(text: Seq<char>, pointer: Seq<char>) -> u16 {
    match json_u64_at(text, pointer) {
        Some(u) => u as u16,
        None => 0,
    }
}

/// The host that a report names, or nothing.
pub open spec fn report_host(report: Option<Seq<char>>) -> Seq<char> {
    if report_readable(report) {
        match json_str_at(report->0, "/network/public_host"@) {
            Some(h) => h,
            None => Seq::empty(),
        }
    } else {
        Seq::empty()
    }
}

pub open spec fn opt_text(o: Option<String>) -> Option<Seq<char>> {
    match o {
        Some(s) => Some(s@),
        None => None,
    }
}

/// The host and ports to probe for a worker at `url` whose last report is
/// `latest_report`: those the report names, the host taken from the URL when
/// the report names none, and port 0 for each port it does not name.
pub fn port_targets(url: &str, latest_report: &Option<String>) -> (res: PortTargets)
    ensures
        ({
            let report = opt_text(*latest_report);
            &&& res.host@ == if report_host(report).len() == 0 {
                url_host(url@)
            } else {
                report_host(report)
            }
            &&& report_readable(report) ==> {
                &&& res.public_port == report_port(report->0, "/network/public_port"@)
                &&& res.socks5_port == report_port(report->0, "/proxy/socks5_port"@)
                &&& res.http_port == report_port(report->0, "/proxy/http_proxy_port"@)
                &&& res.wg_port == report_port(report->0, "/wireguard/listen_port"@)
            }
            &&& !report_readable(report) ==> res.public_port == 0 && res.socks5_port == 0
                && res.http_port == 0 && res.wg_port == 0
        }),
{
    let mut host = String::new();
    let mut public_port: u16 = 0;
    let mut socks5_port: u16 = 0;
    let mut http_port: u16 = 0;
    let mut wg_port: u16 = 0;
    match latest_report {
        Some(text) => {
            if !text.as_str().is_empty() {
                match parse_json(text.as_str()) {
                    Some(doc) => {
                        host = match str_at(&doc, "/network/public_host") {
                            Some(h) => h,
                            None => String::new(),
                        };
                        public_port = match u64_at(&doc, "/network/public_port") {
                            Some(u) => u as u16,
                            None => 0,
                        };
                        socks5_port = match u64_at(&doc, "/proxy/socks5_port") {
                            Some(u) => u as u16,
                            None => 0,
                        };
                        http_port = match u64_at(&doc, "/proxy/http_proxy_port") {
                            Some(u) => u as u16,
                            None => 0,
                        };
                        wg_port = match u64_at(&doc, "/wireguard/listen_port") {
                            Some(u) => u as u16,
                            None => 0,
                        };
                    },
                    None => {},
                }
            }
        },
        None => {},
    }
    if host.as_str().is_empty() {
        host = host_from_url(url);
    }
    PortTargets { host, public_port, socks5_port, http_port, wg_port }
}

/// Whether a port is probed at all: a host and a port other than 0 are needed.
pub fn should_probe(host: &str, port: u16) -> (res: bool)
    ensures
        res == (host@.len() > 0 && port != 0),
{
    !host.is_empty() && port != 0
}

/// How a TCP connection attempt went.
#[derive(Clone, Copy, Debug)]
pub enum TcpProbe {
    Connected,
    Failed,
    TimedOut,
}

/// A TCP port is open when a connection was made in time.
pub fn tcp_verdict(p: TcpProbe) -> (res: bool)
    ensures
        res <==> p is Connected,
{
    match p {
        TcpProbe::Connected => true,
        _ => false,
    }
}

/// How the UDP probe went.
#[derive(Clone, Copy, Debug)]
pub enum UdpProbe {
    /// No local socket could be bound.
    BindFailed,
    /// The socket could not be connected to the worker.
    ConnectFailed,
    /// The probe packet could not be sent.
    SendFailed,
    /// The worker answered.
    Replied,
    /// The worker's host refused: the port is closed.
    Refused,
    /// Receiving failed otherwise.
    RecvFailed,
    /// No answer came in time.
    TimedOut,
}

/// A UDP port counts as reachable when it answered or stayed silent; a
/// refusal or any local failure counts as closed.
pub fn udp_verdict(p: UdpProbe) -> (res: bool)
    ensures
        res <==> (p is Replied || p is TimedOut),
{
    match p {
        UdpProbe::Replied => true,
        UdpProbe::TimedOut => true,
        _ => false,
    }
}

/// The WireGuard handshake-initiation packet used as the UDP probe: type
/// byte 1, then 148 zero bytes.
pub fn wg_handshake_init() -> (res: Vec<u8>)
    ensures
        res@.len() == 149,
        res@[0] == 1,
        forall|i: int| 1 <= i < 149 ==> res@[i] == 0,
{
    let mut buf: Vec<u8> = Vec::new();
    buf.push(1u8);
    while buf.len() < 149
        invariant
            1 <= buf@.len() <= 149,
            buf@[0] == 1,
            forall|i: int| 1 <= i < buf@.len() ==> buf@[i] == 0,
        decreases 149 - buf.len(),
    {
        buf.push(0u8);
    }
    buf
}

/// Whether a TCP port counts as open: a host and a port other than 0 were
/// given, so that it was probed, and the probe connected.
pub open spec fn tcp_port_open(host: Seq<char>, port: u16, probe: Option<TcpProbe>) -> bool {
    host.len() > 0 && port != 0 && probe matches Some(TcpProbe::Connected)
}

/// Whether the UDP port counts as reachable: a host and a port other than 0
/// were given, so that it was probed, and it answered or stayed silent.
pub open spec fn udp_port_open(host: Seq<char>, port: u16, probe: Option<UdpProbe>) -> bool {
    host.len() > 0 && port != 0 && (probe matches Some(UdpProbe::Replied) || probe matches Some(
        UdpProbe::TimedOut,
    ))
}

/// Law: a TCP port counts as open only when its probe connected. A probe
/// that failed or timed out, or no probe at all, reads as closed, and so does
/// any port without a host or with number 0; a connection to a given host
/// and port reads as open.
pub proof fn tcp_open_only_when_connected(host: Seq<char>, port: u16, probe: Option<TcpProbe>)
    ensures
        tcp_port_open(host, port, probe) ==> probe == Some(TcpProbe::Connected),
        probe == Some(TcpProbe::Failed) ==> !tcp_port_open(host, port, probe),
        probe == Some(TcpProbe::TimedOut) ==> !tcp_port_open(host, port, probe),
        probe is None ==> !tcp_port_open(host, port, probe),
        host.len() == 0 || port == 0 ==> !tcp_port_open(host, port, probe),
        host.len() > 0 && port != 0 && probe == Some(TcpProbe::Connected) ==> tcp_port_open(
            host,
            port,
            probe,
        ),
{
}

/// Law: the UDP port counts as reachable only when its probe got an answer
/// or stayed unanswered; a refusal, a local failure or no probe reads as
/// closed, and so does any port without a host or with number 0.
pub proof fn udp_open_only_when_answered_or_silent(host: Seq<char>, port: u16, probe: Option<UdpProbe>)
    ensures
        udp_port_open(host, port, probe) ==> probe == Some(UdpProbe::Replied) || probe == Some(
            UdpProbe::TimedOut,
        ),
        probe == Some(UdpProbe::Refused) ==> !udp_port_open(host, port, probe),
        probe == Some(UdpProbe::BindFailed) ==> !udp_port_open(host, port, probe),
        probe == Some(UdpProbe::ConnectFailed) ==> !udp_port_open(host, port, probe),
        probe == Some(UdpProbe::SendFailed) ==> !udp_port_open(host, port, probe),
        probe == Some(UdpProbe::RecvFailed) ==> !udp_port_open(host, port, probe),
        probe is None ==> !udp_port_open(host, port, probe),
        host.len() == 0 || port == 0 ==> !udp_port_open(host, port, probe),
        host.len() > 0 && port != 0 && (probe == Some(UdpProbe::Replied) || probe == Some(
            UdpProbe::TimedOut,
        )) ==> udp_port_open(host, port, probe),
{
}

/// The reading of a TCP check of `host:port`; `probe` is the probe's outcome,
/// `None` when no probe was made.
pub fn tcp_open(host: &str, port: u16, probe: Option<TcpProbe>) -> (res: bool)
    ensures
        res == tcp_port_open(host@, port, probe),
{
    if !should_probe(host, port) {
        return false;
    }
    match probe {
        Some(p) => tcp_verdict(p),
        None => false,
    }
}

/// The reading of the UDP check of `host:port`; `probe` is the probe's
/// outcome, `None` when no probe was made.
pub fn udp_open(host: &str, port: u16, probe: Option<UdpProbe>) -> (res: bool)
    ensures
        res == udp_port_open(host@, port, probe),
{
    if !should_probe(host, port) {
        return false;
    }
    match probe {
        Some(p) => udp_verdict(p),
        None => false,
    }
}

/// How the probes of a worker's four ports went; `None` where no probe was made.
#[derive(Clone, Copy, Debug)]
pub struct PortProbes {
    pub public: Option<TcpProbe>,
    pub socks5: Option<TcpProbe>,
    pub http: Option<TcpProbe>,
    pub wg: Option<UdpProbe>,
}

/// The stored result of one port check of one worker.
#[derive(Clone, Debug)]
pub struct PortHealthRow {
    pub worker_id: String,
    pub checked_at: String,
    pub host: String,
    pub public_port: i32,
    pub public_ok: bool,
    pub socks5_port: i32,
    pub socks5_ok: bool,
    pub http_port: i32,
    pub http_ok: bool,
    pub wg_port: i32,
    pub wg_ok: bool,
}

/// The record of a port check of `worker_id` that probed `targets` with
/// outcomes `probes`, stamped now. A port counts as open only when a host and
/// the port were given and its probe succeeded.
pub fn port_health_row(worker_id: String, targets: PortTargets, probes: PortProbes) -> (res: PortHealthRow)
    ensures
        res.worker_id == worker_id,
        is_utc_stamp(res.checked_at@),
        res.host == targets.host,
        res.public_port == targets.public_port as i32,
        res.socks5_port == targets.socks5_port as i32,
        res.http_port == targets.http_port as i32,
        res.wg_port == targets.wg_port as i32,
        res.public_ok == tcp_port_open(targets.host@, targets.public_port, probes.public),
        res.socks5_ok == tcp_port_open(targets.host@, targets.socks5_port, probes.socks5),
        res.http_ok == tcp_port_open(targets.host@, targets.http_port, probes.http),
        res.wg_ok == udp_port_open(targets.host@, targets.wg_port, probes.wg),
        res.public_ok ==> res.host@.len() > 0 && res.public_port != 0,
        res.socks5_ok ==> res.host@.len() > 0 && res.socks5_port != 0,
        res.http_ok ==> res.host@.len() > 0 && res.http_port != 0,
        res.wg_ok ==> res.host@.len() > 0 && res.wg_port != 0,
{
    let public_ok = tcp_open(targets.host.as_str(), targets.public_port, probes.public);
    let socks5_ok = tcp_open(targets.host.as_str(), targets.socks5_port, probes.socks5);
    let http_ok = tcp_open(targets.host.as_str(), targets.http_port, probes.http);
    let wg_ok = udp_open(targets.host.as_str(), targets.wg_port, probes.wg);
    PortHealthRow {
        worker_id,
        checked_at: now_rfc3339(),
        host: targets.host,
        public_port: targets.public_port as i32,
        public_ok,
        socks5_port: targets.socks5_port as i32,
        socks5_ok,
        http_port: targets.http_port as i32,
        http_ok,
        wg_port: targets.wg_port as i32,
        wg_ok,
    }
}

} // verus!
