//! What the launcher reads from the local network and from `netstat`: the
//! HTTP readiness answer, the session cookie of the token URL, and the
//! processes listening on the service port.

use vstd::prelude::*;

use crate::text::{
    chars_of, decimal, eq_ignore_ascii_case, lower_chars, parse_unsigned, parse_unsigned_chars,
    push_chars, push_decimal, rsplit_once, rsplit_once_chars, same_chars, slice_range,
    split_all, split_chars, split_once, split_once_chars, starts_with, starts_with_chars,
    string_of, trim, trim_chars, utf8_text, views, words, words_of,
    is_digit, law_decimal_round_trip, lemma_decimal_digits, lemma_find_from_first,
    lemma_find_from_none, lemma_find_from_range, strips, Strip, is_white, lemma_first_kept_at,
    lemma_last_kept_end_bounds, lemma_trim_by_keeps, lower,
};

verus! {

/// A cookie captured from a `Set-Cookie` header.
#[derive(Debug, Clone, PartialEq, Eq)]
pub struct SessionCookie {
    pub name: String,
    pub value: String,
}

/// `host:port` as the socket address text.
pub fn socket_addr_text(host: &str, port: u16) -> (r: String)
    ensures
        r@ == host@ + ":"@ + decimal(port as nat),
{
    let mut r = String::from_str(host);
    r.append(":");
    push_decimal(&mut r, port as u64);
    r
}

/// The request line and headers of a `GET` of `path` from `host:port`,
/// asking the server to close the connection afterwards.
pub fn http_get_request(host: &str, port: u16, path: &str) -> (r: String)
    ensures
        r@ == "GET "@ + path@ + " HTTP/1.1\r\nHost: "@ + host@ + ":"@ + decimal(port as nat)
            + "\r\nConnection: close\r\n\r\n"@,
{
    let mut r = String::from_str("GET ");
    r.append(path);
    r.append(" HTTP/1.1\r\nHost: ");
    r.append(host);
    r.append(":");
    push_decimal(&mut r, port as u64);
    r.append("\r\nConnection: close\r\n\r\n");
    r
}

/// The service is up when the first bytes it answers are UTF-8 text whose
/// first line starts with `HTTP/`.
pub fn looks_like_http(response: &[u8]) -> (r: bool)
    ensures
        r == (vstd::utf8::valid_utf8(response@) && starts_with(
            vstd::utf8::decode_utf8(response@),
            "HTTP/"@,
        )),
{
    match utf8_text(response) {
        None => false,
        Some(t) => starts_with_chars(chars_of(t.as_str()).as_slice(), chars_of("HTTP/").as_slice()),
    }
}

/// Host, port and path of an `http://` URL: the port after `:` (80 when
/// absent, and it must parse as a `u16`), the path from the first `/` on (at
/// least `/`); nothing for another scheme or an empty host.
pub open spec fn local_http_url(url: Seq<char>) -> Option<(Seq<char>, nat, Seq<char>)> {
    if !starts_with(url, "http://"@) {
        None
    } else {
        let rest = url.subrange("http://"@.len() as int, url.len() as int);
        let (authority, path) = match split_once(rest, '/') {
            Some((a, p)) => (a, p),
            None => (rest, Seq::<char>::empty()),
        };
        let host_port = match split_once(authority, ':') {
            Some((h, p)) => match parse_unsigned(p, 65535) {
                Some(n) => Some((h, n)),
                None => None,
            },
            None => Some((authority, 80nat)),
        };
        match host_port {
            None => None,
            Some((h, n)) => if h.len() == 0 {
                None
            } else {
                Some((h, n, seq!['/'] + path))
            },
        }
    }
}

/// Splits a local `http://` URL into host, port and path.
pub fn parse_local_http_url(url: &str) -> (r: Option<(String, u16, String)>)
    ensures
        match r {
            Some((h, p, path)) => local_http_url(url@) == Some((h@, p as nat, path@)),
            None => local_http_url(url@) is None,
        },
{
    let u = chars_of(url);
    let scheme = chars_of("http://");
    if !starts_with_chars(u.as_slice(), scheme.as_slice()) {
        return None;
    }
    let rest = slice_range(u.as_slice(), scheme.len(), u.len());
    let (authority, path) = match split_once_chars(rest.as_slice(), '/') {
        Some((a, p)) => (a, p),
        None => (rest, Vec::new()),
    };
    assert(path@ == (match split_once(rest@, '/') {
        Some((a, p)) => p,
        None => Seq::<char>::empty(),
    }));
    let (host, port) = match split_once_chars(authority.as_slice(), ':') {
        Some((h, p)) => match parse_unsigned_chars(p.as_slice(), 65535) {
            Some(n) => (h, n as u16),
            None => {
                return None;
            },
        },
        None => (authority, 80u16),
    };
    if host.len() == 0 {
        return None;
    }
    let mut full_path = String::new();
    full_path.push('/');
    push_chars(&mut full_path, path.as_slice());
    assert(full_path@ =~= seq!['/'] + path@);
    Some((string_of(host.as_slice()), port, full_path))
}

/// Splitting `s` at its first `c`, when the first `c` is at `j`.
proof fn lemma_split_at_first(s: Seq<char>, c: char, j: int)
    requires
        0 <= j < s.len(),
        s[j] == c,
        forall|t: int| 0 <= t < j ==> #[trigger] s[t] != c,
    ensures
        split_once(s, c) == Some((s.subrange(0, j), s.subrange(j + 1, s.len() as int))),
{
    assert forall|t: int| 0 <= t < j implies !strips(Strip::Char(c), #[trigger] s[t]) by {}
    lemma_find_from_first(s, Strip::Char(c), 0, j);
}

/// No `c` in `s`: it does not split.
proof fn lemma_split_none(s: Seq<char>, c: char)
    requires
        forall|t: int| 0 <= t < s.len() ==> #[trigger] s[t] != c,
    ensures
        split_once(s, c) is None,
{
    assert forall|t: int| 0 <= t < s.len() implies !strips(Strip::Char(c), #[trigger] s[t]) by {}
    lemma_find_from_none(s, Strip::Char(c), 0);
}

/// A URL written as `http://host:port/rest`, with a non-empty host free of
/// `:` and `/`, parses back into exactly that host, port and `/rest`;
/// `http://host` is port 80 and path `/`; an empty host is refused; and so is
/// every URL that does not start with `http://`.
pub proof fn law_local_http_url_round_trip(h: Seq<char>, p: u16, rest: Seq<char>, u: Seq<char>)
    requires
        h.len() > 0,
        !h.contains(':'),
        !h.contains('/'),
    ensures
        local_http_url("http://"@ + h + ":"@ + decimal(p as nat) + "/"@ + rest) == Some(
            (h, p as nat, "/"@ + rest),
        ),
        local_http_url("http://"@ + h) == Some((h, 80nat, "/"@)),
        local_http_url("http://:3080/"@) is None,
        !starts_with(u, "http://"@) ==> local_http_url(u) is None,
{
    reveal_strlit("http://");
    reveal_strlit(":");
    reveal_strlit("/");
    reveal_strlit("http://:3080/");
    let scheme = "http://"@;
    let d = decimal(p as nat);
    lemma_decimal_digits(p as nat);
    law_decimal_round_trip(p as nat, 65535);
    assert forall|t: int| 0 <= t < h.len() implies #[trigger] h[t] != ':' && h[t] != '/' by {
        if h[t] == ':' {
            assert(h.contains(':'));
        }
        if h[t] == '/' {
            assert(h.contains('/'));
        }
    }
    assert forall|t: int| 0 <= t < d.len() implies #[trigger] d[t] != ':' && d[t] != '/' by {
        assert(is_digit(d[t]));
    }

    // http://host:port/rest
    let url = scheme + h + ":"@ + d + "/"@ + rest;
    assert(starts_with(url, scheme)) by {
        assert(url.subrange(0, scheme.len() as int) =~= scheme);
    }
    let r = url.subrange(scheme.len() as int, url.len() as int);
    let auth = h + ":"@ + d;
    assert(r =~= auth + "/"@ + rest);
    assert(r[auth.len() as int] == '/');
    assert forall|t: int| 0 <= t < auth.len() implies #[trigger] r[t] != '/' by {
        assert(r[t] == auth[t]);
        if t >= h.len() + 1 {
            assert(auth[t] == d[t - h.len() - 1]);
        }
    }
    lemma_split_at_first(r, '/', auth.len() as int);
    assert(r.subrange(0, auth.len() as int) =~= auth);
    assert(r.subrange(auth.len() + 1int, r.len() as int) =~= rest);
    assert(auth[h.len() as int] == ':');
    assert forall|t: int| 0 <= t < h.len() implies #[trigger] auth[t] != ':' by {
        assert(auth[t] == h[t]);
    }
    lemma_split_at_first(auth, ':', h.len() as int);
    assert(auth.subrange(0, h.len() as int) =~= h);
    assert(auth.subrange(h.len() + 1int, auth.len() as int) =~= d);
    assert(seq!['/'] + rest =~= "/"@ + rest);

    // http://host
    let url2 = scheme + h;
    assert(url2.subrange(0, scheme.len() as int) =~= scheme);
    let r2 = url2.subrange(scheme.len() as int, url2.len() as int);
    assert(r2 =~= h);
    lemma_split_none(r2, '/');
    lemma_split_none(h, ':');
    assert(seq!['/'] + Seq::<char>::empty() =~= "/"@);

    // http://:3080/
    let url3 = "http://:3080/"@;
    assert(url3.subrange(0, scheme.len() as int) =~= scheme);
    let r3 = url3.subrange(scheme.len() as int, url3.len() as int);
    assert(r3[0] == ':');
    lemma_find_from_range(r3, Strip::Char('/'), 0);
    let auth3 = match split_once(r3, '/') {
        Some((a, _q)) => a,
        None => r3,
    };
    assert(auth3.len() > 0 && auth3[0] == ':');
    lemma_split_at_first(auth3, ':', 0);
    assert(auth3.subrange(0, 0).len() == 0);
}

/// The cookie that the first usable `Set-Cookie` header among `lines`
/// carries. The headers end at the first empty line; a header line without
/// `:` ends the search with nothing; a `Set-Cookie` (any case) value is
/// trimmed, cut at its first `;` and trimmed again, must contain `=` (else
/// the search ends with nothing), and is skipped when its name or value is
/// empty.
pub open spec fn cookie_from_headers(lines: Seq<Seq<char>>) -> Option<(Seq<char>, Seq<char>)>
    decreases lines.len(),
{
    if lines.len() == 0 || lines[0].len() == 0 {
        None
    } else {
        match split_once(lines[0], ':') {
            None => None,
            Some((name, value)) => if !eq_ignore_ascii_case(name, "set-cookie"@) {
                cookie_from_headers(lines.drop_first())
            } else {
                let cookie = trim(value);
                let pair = trim(
                    match split_once(cookie, ';') {
                        Some((first, _rest)) => first,
                        None => cookie,
                    },
                );
                match split_once(pair, '=') {
                    None => None,
                    Some((n, v)) => if n.len() == 0 || v.len() == 0 {
                        cookie_from_headers(lines.drop_first())
                    } else {
                        Some((n, v))
                    },
                }
            },
        }
    }
}

/// The session cookie of a response: only a `303` status line (HTTP/1.1 or
/// HTTP/1.0) counts; lines are the pieces between `\n`.
pub open spec fn session_cookie(response: Seq<char>) -> Option<(Seq<char>, Seq<char>)> {
    let lines = split_all(response, '\n');
    if !(starts_with(lines[0], "HTTP/1.1 303"@) || starts_with(lines[0], "HTTP/1.0 303"@)) {
        None
    } else {
        cookie_from_headers(lines.drop_first())
    }
}

/// The first two lines of `first`, a newline, `second`, a newline and
/// `rest`.
proof fn lemma_two_lines(first: Seq<char>, second: Seq<char>, rest: Seq<char>)
    requires
        forall|t: int| 0 <= t < first.len() ==> #[trigger] first[t] != '\n',
        forall|t: int| 0 <= t < second.len() ==> #[trigger] second[t] != '\n',
    ensures
        split_all(first + seq!['\n'] + second + seq!['\n'] + rest, '\n')[0] == first,
        split_all(first + seq!['\n'] + second + seq!['\n'] + rest, '\n').drop_first() == seq![
            second,
        ] + split_all(rest, '\n'),
{
    let after1 = second + seq!['\n'] + rest;
    let resp = first + seq!['\n'] + second + seq!['\n'] + rest;
    assert(resp =~= first + seq!['\n'] + after1);
    assert forall|t: int| 0 <= t < first.len() implies #[trigger] resp[t] != '\n' by {
        assert(resp[t] == first[t]);
    }
    lemma_split_at_first(resp, '\n', first.len() as int);
    assert(resp.subrange(0, first.len() as int) =~= first);
    assert(resp.subrange(first.len() + 1int, resp.len() as int) =~= after1);
    assert forall|t: int| 0 <= t < second.len() implies #[trigger] after1[t] != '\n' by {
        assert(after1[t] == second[t]);
    }
    lemma_split_at_first(after1, '\n', second.len() as int);
    assert(after1.subrange(0, second.len() as int) =~= second);
    assert(after1.subrange(second.len() + 1int, after1.len() as int) =~= rest);
    let lines = split_all(resp, '\n');
    assert(lines == seq![first] + split_all(after1, '\n'));
    assert(split_all(after1, '\n') == seq![second] + split_all(rest, '\n'));
    assert(lines.drop_first() =~= seq![second] + split_all(rest, '\n'));
}

/// What the cookie rules make of a `Set-Cookie` value ` n=v` followed by
/// attributes that start with `;`: the pair `n=v`, split at its first `=`.
proof fn lemma_cookie_pair(n: Seq<char>, v: Seq<char>, attrs: Seq<char>)
    requires
        n.len() > 0,
        v.len() > 0,
        forall|t: int| 0 <= t < n.len() ==> #[trigger] n[t] != ';' && n[t] != '=',
        forall|t: int| 0 <= t < v.len() ==> #[trigger] v[t] != ';',
        !is_white(n[0]),
        !is_white(v.last()),
        attrs.len() == 0 || attrs[0] == ';',
    ensures
        ({
            let cookie = trim(seq![' '] + n + seq!['='] + v + attrs);
            let first = match split_once(cookie, ';') {
                Some((f, _r)) => f,
                None => cookie,
            };
            split_once(trim(first), '=') == Some((n, v))
        }),
{
    let pairtext = n + seq!['='] + v;
    let value = seq![' '] + n + seq!['='] + v + attrs;
    assert(value =~= seq![' '] + pairtext + attrs);
    assert(value[1] == n[0]);
    lemma_first_kept_at(value, Strip::White, 0, 1);
    let m: int = 1int + pairtext.len();
    let p: int = if attrs.len() > 0 {
        m
    } else {
        m - 1
    };
    if attrs.len() > 0 {
        assert(value[m] == attrs[0]);
    } else {
        assert(value[m - 1] == v.last());
    }
    lemma_last_kept_end_bounds(value, Strip::White, 1, value.len() as int, p);
    let cookie = trim(value);
    assert forall|t: int| 0 <= t < pairtext.len() implies #[trigger] pairtext[t] != ';' by {
        if t >= n.len() + 1 {
            assert(pairtext[t] == v[t - n.len() - 1]);
        }
    }
    let first = match split_once(cookie, ';') {
        Some((f, _r)) => f,
        None => cookie,
    };
    if attrs.len() > 0 {
        assert forall|t: int| 0 <= t < pairtext.len() implies #[trigger] cookie[t] != ';' by {
            assert(cookie[t] == pairtext[t]);
        }
        assert(cookie[pairtext.len() as int] == ';');
        lemma_split_at_first(cookie, ';', pairtext.len() as int);
        assert(first =~= pairtext);
    } else {
        assert(cookie =~= pairtext);
        lemma_split_none(cookie, ';');
        assert(first == pairtext);
    }
    assert(pairtext[0] == n[0] && pairtext.last() == v.last());
    lemma_trim_by_keeps(pairtext, Strip::White);
    assert(pairtext[n.len() as int] == '=');
    lemma_split_at_first(pairtext, '=', n.len() as int);
    assert(pairtext.subrange(0, n.len() as int) =~= n);
    assert(pairtext.subrange(n.len() + 1int, pairtext.len() as int) =~= v);
}

/// A `303` answer whose first header is `Set-Cookie: n=v` (the header name
/// in any ASCII case), possibly followed by `;` and cookie attributes, carries the cookie named `n` with value
/// `v`: the name is everything before the first `=`, the value everything
/// after it up to the first `;` (so a value may itself hold `=`, as base64
/// padding does). The name is non-empty without `=` or `;` and starts with a
/// non-blank; the value is non-empty without `;` and ends with a non-blank.
pub proof fn law_session_cookie_from_set_cookie(
    status: Seq<char>,
    hname: Seq<char>,
    n: Seq<char>,
    v: Seq<char>,
    attrs: Seq<char>,
    rest: Seq<char>,
)
    requires
        starts_with(status, "HTTP/1.1 303"@),
        !status.contains('\n'),
        lower(hname) == "set-cookie"@,
        n.len() > 0,
        v.len() > 0,
        !n.contains('='),
        !n.contains(';'),
        !n.contains('\n'),
        !v.contains(';'),
        !v.contains('\n'),
        !is_white(n[0]),
        !is_white(v.last()),
        !attrs.contains('\n'),
        attrs.len() == 0 || attrs[0] == ';',
    ensures
        session_cookie(
            status + "\n"@ + hname + ": "@ + n + "="@ + v + attrs + "\n"@ + rest,
        ) == Some((n, v)),
{
    reveal_strlit("\n");
    reveal_strlit(": ");
    reveal_strlit("set-cookie");
    reveal_strlit("=");
    assert forall|t: int| 0 <= t < status.len() implies #[trigger] status[t] != '\n' by {
        if status[t] == '\n' {
            assert(status.contains('\n'));
        }
    }
    assert forall|t: int| 0 <= t < n.len() implies #[trigger] n[t] != '\n' && n[t] != ';'
        && n[t] != '=' by {
        if n[t] == '\n' || n[t] == ';' || n[t] == '=' {
            assert(n.contains(n[t]));
        }
    }
    assert forall|t: int| 0 <= t < v.len() implies #[trigger] v[t] != '\n' && v[t] != ';' by {
        if v[t] == '\n' || v[t] == ';' {
            assert(v.contains(v[t]));
        }
    }
    assert forall|t: int| 0 <= t < attrs.len() implies #[trigger] attrs[t] != '\n' by {
        if attrs[t] == '\n' {
            assert(attrs.contains('\n'));
        }
    }
    let pairtext = n + seq!['='] + v;
    let header = hname + ": "@ + pairtext + attrs;
    assert(lower(hname).len() == hname.len());
    assert("set-cookie"@.len() == 10);
    assert(hname.len() == 10);
    assert forall|t: int| 0 <= t < 10 implies #[trigger] hname[t] != ':' && hname[t] != '\n' by {
        assert(lower(hname)[t] == crate::text::ascii_lower(hname[t]));
    }
    assert(lower("set-cookie"@) =~= "set-cookie"@);
    assert forall|t: int| 0 <= t < header.len() implies #[trigger] header[t] != '\n' by {
        if t < 10 {
            assert(header[t] == hname[t]);
        } else if t >= 12 && t < 12 + pairtext.len() {
            assert(header[t] == pairtext[t - 12]);
            if t - 12 >= n.len() + 1 {
                assert(pairtext[t - 12] == v[t - 12 - n.len() - 1]);
            }
        } else if t >= 12 + pairtext.len() {
            assert(header[t] == attrs[t - 12 - pairtext.len()]);
        }
    }
    let resp = status + "\n"@ + hname + ": "@ + n + "="@ + v + attrs + "\n"@ + rest;
    assert(resp =~= status + seq!['\n'] + header + seq!['\n'] + rest);
    lemma_two_lines(status, header, rest);
    let hs = split_all(resp, '\n').drop_first();
    assert(hs[0] == header);
    assert(hs.drop_first() =~= split_all(rest, '\n'));
    assert forall|t: int| 0 <= t < 10 implies #[trigger] header[t] != ':' by {
        assert(header[t] == hname[t]);
    }
    lemma_split_at_first(header, ':', 10);
    assert(header.subrange(0, 10) =~= hname);
    assert(eq_ignore_ascii_case(hname, "set-cookie"@));
    assert(header.subrange(11, header.len() as int) =~= seq![' '] + n + seq!['='] + v + attrs);
    lemma_cookie_pair(n, v, attrs);
}

/// Where the cookie search stops or moves on: only a `303` answer (HTTP/1.1
/// or HTTP/1.0) is searched; the blank line that ends the headers ends the
/// search empty-handed, and so does a header line without `:`; a header of
/// another name (in any ASCII case) is passed over.
pub proof fn law_cookie_search_rules(
    status: Seq<char>,
    rest: Seq<char>,
    hs: Seq<Seq<char>>,
    name: Seq<char>,
    value: Seq<char>,
    line: Seq<char>,
)
    ensures
        !(starts_with(status, "HTTP/1.1 303"@) || starts_with(status, "HTTP/1.0 303"@))
            && !status.contains('\n') ==> session_cookie(status + "\n"@ + rest) is None,
        cookie_from_headers(seq![Seq::<char>::empty()] + hs) is None,
        line.len() > 0 && !line.contains(':') ==> cookie_from_headers(seq![line] + hs) is None,
        !name.contains(':') && lower(name) != "set-cookie"@ ==> cookie_from_headers(
            seq![name + ":"@ + value] + hs,
        ) == cookie_from_headers(hs),
{
    reveal_strlit("\n");
    reveal_strlit(":");
    reveal_strlit("set-cookie");
    assert(lower("set-cookie"@) =~= "set-cookie"@);
    if !status.contains('\n') {
        let resp = status + "\n"@ + rest;
        assert forall|t: int| 0 <= t < status.len() implies #[trigger] resp[t] != '\n' by {
            assert(resp[t] == status[t]);
            if status[t] == '\n' {
                assert(status.contains('\n'));
            }
        }
        lemma_split_at_first(resp, '\n', status.len() as int);
        assert(resp.subrange(0, status.len() as int) =~= status);
        assert(split_all(resp, '\n')[0] == status);
    }
    let l0 = seq![Seq::<char>::empty()] + hs;
    assert(l0[0].len() == 0);
    let l1 = seq![line] + hs;
    assert(l1[0] == line);
    if line.len() > 0 && !line.contains(':') {
        assert forall|t: int| 0 <= t < line.len() implies #[trigger] line[t] != ':' by {
            if line[t] == ':' {
                assert(line.contains(':'));
            }
        }
        lemma_split_none(line, ':');
    }
    let h = name + ":"@ + value;
    let l2 = seq![h] + hs;
    assert(l2[0] == h);
    assert(l2.drop_first() =~= hs);
    if !name.contains(':') && lower(name) != "set-cookie"@ {
        assert forall|t: int| 0 <= t < name.len() implies #[trigger] h[t] != ':' by {
            assert(h[t] == name[t]);
            if name[t] == ':' {
                assert(name.contains(':'));
            }
        }
        lemma_split_at_first(h, ':', name.len() as int);
        assert(h.subrange(0, name.len() as int) =~= name);
    }
}

pub open spec fn cookie_view(c: SessionCookie) -> (Seq<char>, Seq<char>) {
    (c.name@, c.value@)
}

proof fn lemma_split_all_nonempty(s: Seq<char>, c: char)
    ensures
        split_all(s, c).len() >= 1,
{
}

/// Reads the session cookie from a response that redirects with `303`.
pub fn parse_session_cookie(response: &str) -> (r: Option<SessionCookie>)
    ensures
        match r {
            Some(c) => session_cookie(response@) == Some(cookie_view(c)),
            None => session_cookie(response@) is None,
        },
{
    let lines = split_chars(chars_of(response).as_slice(), '\n');
    let ghost ls = views(lines@);
    proof {
        lemma_split_all_nonempty(response@, '\n');
    }
    assert(ls[0] == lines@[0]@);
    let status = &lines[0];
    if !(starts_with_chars(status.as_slice(), chars_of("HTTP/1.1 303").as_slice())
        || starts_with_chars(status.as_slice(), chars_of("HTTP/1.0 303").as_slice())) {
        return None;
    }
    let header = lower_chars(chars_of("set-cookie").as_slice());
    let mut i: usize = 1;
    assert(ls.drop_first() =~= ls.subrange(1, ls.len() as int));
    while i < lines.len()
        invariant
            1 <= i <= lines.len(),
            ls == views(lines@),
            ls == split_all(response@, '\n'),
            header@ == crate::text::lower("set-cookie"@),
            starts_with(ls[0], "HTTP/1.1 303"@) || starts_with(ls[0], "HTTP/1.0 303"@),
            cookie_from_headers(ls.subrange(i as int, ls.len() as int)) == cookie_from_headers(
                ls.drop_first(),
            ),
        decreases lines.len() - i,
    {
        let ghost rest = ls.subrange(i as int, ls.len() as int);
        assert(rest[0] == lines@[i as int]@);
        assert(rest.drop_first() =~= ls.subrange(i + 1 as int, ls.len() as int));
        let line = &lines[i];
        if line.len() == 0 {
            return None;
        }
        let (name, value) = match split_once_chars(line.as_slice(), ':') {
            None => {
                return None;
            },
            Some(nv) => nv,
        };
        if same_chars(lower_chars(name.as_slice()).as_slice(), header.as_slice()) {
            let cookie = trim_chars(value.as_slice());
            let first = match split_once_chars(cookie.as_slice(), ';') {
                Some((f, _rest)) => f,
                None => cookie,
            };
            let pair = trim_chars(first.as_slice());
            match split_once_chars(pair.as_slice(), '=') {
                None => {
                    return None;
                },
                Some((n, v)) => {
                    if n.len() > 0 && v.len() > 0 {
                        assert(pair@ == trim(match split_once(cookie@, ';') {
                            Some((f, _r)) => f,
                            None => cookie@,
                        }));
                        return Some(
                            SessionCookie { name: string_of(n.as_slice()), value: string_of(v.as_slice()) },
                        );
                    }
                },
            }
        }
        i = i + 1;
    }
    assert(ls.subrange(lines.len() as int, ls.len() as int).len() == 0);
    None
}

/// The session cookie of a raw response; nothing when it is not UTF-8.
pub fn session_cookie_from_response(response: &[u8]) -> (r: Option<SessionCookie>)
    ensures
        match r {
            Some(c) => vstd::utf8::valid_utf8(response@) && session_cookie(
                vstd::utf8::decode_utf8(response@),
            ) == Some(cookie_view(c)),
            None => !vstd::utf8::valid_utf8(response@) || session_cookie(
                vstd::utf8::decode_utf8(response@),
            ) is None,
        },
{
    match utf8_text(response) {
        None => None,
        Some(t) => parse_session_cookie(t.as_str()),
    }
}


/// The process id of a `netstat -ano` line, split into its fields, when it
/// is a TCP socket in state `LISTENING` on `port` held by a process other
/// than 0 and `self_pid`. The local port follows the last `:` of the local
/// address; port and pid must parse as `u16` and `u32`.
pub open spec fn listener_pid(fields: Seq<Seq<char>>, port: u16, self_pid: u32) -> Option<u32> {
    if fields.len() < 5 || !eq_ignore_ascii_case(fields[0], "TCP"@) || fields[3] != "LISTENING"@ {
        None
    } else {
        match rsplit_once(fields[1], ':') {
            None => None,
            Some((_address, p)) => match parse_unsigned(p, 65535) {
                None => None,
                Some(local_port) => match parse_unsigned(fields[4], 4294967295) {
                    None => None,
                    Some(pid) => if local_port == port && pid != 0 && pid != self_pid {
                        Some(pid as u32)
                    } else {
                        None
                    },
                },
            },
        }
    }
}

/// The listener pids of `lines`, in order of first appearance, each once.
pub open spec fn collect_pids(lines: Seq<Seq<char>>, port: u16, self_pid: u32) -> Seq<u32>
    decreases lines.len(),
{
    if lines.len() == 0 {
        seq![]
    } else {
        let acc = collect_pids(lines.drop_last(), port, self_pid);
        match listener_pid(words(lines.last()), port, self_pid) {
            Some(pid) => if acc.contains(pid) {
                acc
            } else {
                acc.push(pid)
            },
            None => acc,
        }
    }
}

fn listener_pid_of(fields: &Vec<Vec<char>>, port: u16, self_pid: u32) -> (r: Option<u32>)
    ensures
        r == listener_pid(views(fields@), port, self_pid),
{
    let ghost fs = views(fields@);
    if fields.len() < 5 {
        return None;
    }
    assert(fs[0] == fields@[0]@ && fs[1] == fields@[1]@ && fs[3] == fields@[3]@ && fs[4]
        == fields@[4]@);
    let tcp = lower_chars(chars_of("TCP").as_slice());
    if !same_chars(lower_chars(fields[0].as_slice()).as_slice(), tcp.as_slice()) {
        return None;
    }
    if !same_chars(fields[3].as_slice(), chars_of("LISTENING").as_slice()) {
        return None;
    }
    let p = match rsplit_once_chars(fields[1].as_slice(), ':') {
        None => {
            return None;
        },
        Some((_address, p)) => p,
    };
    let local_port = match parse_unsigned_chars(p.as_slice(), 65535) {
        None => {
            return None;
        },
        Some(n) => n,
    };
    let pid = match parse_unsigned_chars(fields[4].as_slice(), 4294967295) {
        None => {
            return None;
        },
        Some(n) => n,
    };
    if local_port == port as u64 && pid != 0 && pid != self_pid as u64 {
        Some(pid as u32)
    } else {
        None
    }
}

fn contains_pid(pids: &Vec<u32>, pid: u32) -> (r: bool)
    ensures
        r == pids@.contains(pid),
{
    let mut i: usize = 0;
    while i < pids.len()
        invariant
            i <= pids.len(),
            forall|j: int| 0 <= j < i ==> pids@[j] != pid,
        decreases pids.len() - i,
    {
        if pids[i] == pid {
            return true;
        }
        i = i + 1;
    }
    false
}

/// The processes listening on TCP `port` according to the output of
/// `netstat -ano -p tcp`, other than process 0 and `self_pid`.
///
/// Lines are the pieces between `\n`; a trailing `\r` is whitespace and an
/// empty last piece has no fields, so this agrees with `str::lines`.
pub fn listening_pids_from_netstat(output: &str, port: u16, self_pid: u32) -> (r: Vec<u32>)
    ensures
        r@ == collect_pids(split_all(output@, '\n'), port, self_pid),
{
    let lines = split_chars(chars_of(output).as_slice(), '\n');
    let ghost ls = views(lines@);
    let mut pids: Vec<u32> = Vec::new();
    let mut i: usize = 0;
    while i < lines.len()
        invariant
            i <= lines.len(),
            ls == views(lines@),
            pids@ == collect_pids(ls.take(i as int), port, self_pid),
        decreases lines.len() - i,
    {
        assert(ls.take(i + 1 as int).drop_last() =~= ls.take(i as int));
        assert(ls.take(i + 1 as int).last() == lines@[i as int]@);
        let fields = words_of(lines[i].as_slice());
        match listener_pid_of(&fields, port, self_pid) {
            Some(pid) => {
                if !contains_pid(&pids, pid) {
                    pids.push(pid);
                }
            },
            None => {},
        }
        i = i + 1;
    }
    assert(ls.take(lines.len() as int) =~= ls);
    pids
}

/// The listener pids never repeat and never include process 0 or the
/// launcher itself, so the launcher never asks to kill itself or the idle
/// process.
pub proof fn law_listener_pids_are_foreign(lines: Seq<Seq<char>>, port: u16, self_pid: u32)
    ensures
        collect_pids(lines, port, self_pid).no_duplicates(),
        !collect_pids(lines, port, self_pid).contains(0),
        !collect_pids(lines, port, self_pid).contains(self_pid),
    decreases lines.len(),
{
    if lines.len() > 0 {
        law_listener_pids_are_foreign(lines.drop_last(), port, self_pid);
        let acc = collect_pids(lines.drop_last(), port, self_pid);
        match listener_pid(words(lines.last()), port, self_pid) {
            Some(pid) => {
                if !acc.contains(pid) {
                    let now = acc.push(pid);
                    assert forall|i: int, j: int|
                        0 <= i < now.len() && 0 <= j < now.len() && i != j implies now[i]
                        != now[j] by {
                        if i < acc.len() && j < acc.len() {
                        } else if i == acc.len() {
                            assert(acc.contains(now[j]) || j == i);
                        } else {
                            assert(acc.contains(now[i]) || j == i);
                        }
                    }
                    assert(!now.contains(0)) by {
                        if now.contains(0) {
                            let k = choose|k: int| 0 <= k < now.len() && now[k] == 0;
                            if k < acc.len() {
                                assert(acc.contains(0));
                            }
                        }
                    }
                    assert(!now.contains(self_pid)) by {
                        if now.contains(self_pid) {
                            let k = choose|k: int| 0 <= k < now.len() && now[k] == self_pid;
                            if k < acc.len() {
                                assert(acc.contains(self_pid));
                            }
                        }
                    }
                }
            },
            None => {},
        }
    }
}


pub const READ_LISTENERS_FAILED: &'static str = "读取 TCP 监听端口失败";

/// `text`, followed by `: ` and `detail` when there is one.
pub open spec fn with_detail(text: Seq<char>, detail: Option<Seq<char>>) -> Seq<char> {
    match detail {
        Some(d) => text + ": "@ + d,
        None => text,
    }
}

fn push_detail(r: &mut String, detail: Option<&str>)
    ensures
        final(r)@ == with_detail(
            old(r)@,
            match detail {
                Some(d) => Some(d@),
                None => None,
            },
        ),
{
    match detail {
        Some(d) => {
            r.append(": ");
            r.append(d);
        },
        None => {},
    }
}

/// The failure when `netstat` could not be run (`detail` is why) or did
/// not succeed.
pub fn read_listeners_failure(detail: Option<&str>) -> (r: String)
    ensures
        r@ == with_detail(
            READ_LISTENERS_FAILED@,
            match detail {
                Some(d) => Some(d@),
                None => None,
            },
        ),
{
    let mut r = String::from_str(READ_LISTENERS_FAILED);
    push_detail(&mut r, detail);
    r
}

/// "关闭占用端口 `port` 的进程 `pid` 失败", with the reason when there is one.
pub open spec fn kill_failure_text(port: u16, pid: u32, detail: Option<Seq<char>>) -> Seq<char> {
    with_detail(
        "关闭占用端口 "@ + decimal(port as nat) + " 的进程 "@ + decimal(pid as nat) + " 失败"@,
        detail,
    )
}

pub fn kill_failure(port: u16, pid: u32, detail: Option<&str>) -> (r: String)
    ensures
        r@ == kill_failure_text(
            port,
            pid,
            match detail {
                Some(d) => Some(d@),
                None => None,
            },
        ),
{
    let mut r = String::from_str("关闭占用端口 ");
    push_decimal(&mut r, port as u64);
    r.append(" 的进程 ");
    push_decimal(&mut r, pid as u64);
    r.append(" 失败");
    push_detail(&mut r, detail);
    r
}

/// How an attempt to end a listener went.
pub enum KillOutcome {
    /// `taskkill` ran and succeeded.
    Killed,
    /// `taskkill` ran and failed.
    Refused,
    /// `taskkill` could not be run, for this reason.
    NotRun(String),
}

/// What closing the listeners does next.
pub enum CloseStep {
    /// End the process with this id.
    Kill(u32),
    /// Stop with this outcome.
    Finish(Result<(), String>),
}

/// Closing starts with the first listener, and is done at once when there
/// is none.
pub fn first_close_step(pids: &[u32]) -> (r: CloseStep)
    ensures
        pids@.len() == 0 ==> r matches CloseStep::Finish(Ok(())),
        pids@.len() > 0 ==> r == CloseStep::Kill(pids@[0]),
{
    if pids.len() == 0 {
        CloseStep::Finish(Ok(()))
    } else {
        CloseStep::Kill(pids[0])
    }
}

/// After the attempt on `pids[index]`: a success moves on to the next
/// listener, or ends well after the last one; the first failure ends
/// closing with its message.
pub fn close_step_after(port: u16, pids: &[u32], index: usize, outcome: KillOutcome) -> (r:
    CloseStep)
    requires
        index < pids@.len(),
    ensures
        match outcome {
            KillOutcome::Killed => if index + 1 < pids@.len() {
                r == CloseStep::Kill(pids@[index + 1])
            } else {
                r matches CloseStep::Finish(Ok(()))
            },
            KillOutcome::Refused => r matches CloseStep::Finish(Err(m)) && m@ == kill_failure_text(
                port,
                pids@[index as int],
                None,
            ),
            KillOutcome::NotRun(d) => r matches CloseStep::Finish(Err(m)) && m@
                == kill_failure_text(port, pids@[index as int], Some(d@)),
        },
{
    match outcome {
        KillOutcome::Killed => {
            if index < pids.len() - 1 {
                CloseStep::Kill(pids[index + 1])
            } else {
                CloseStep::Finish(Ok(()))
            }
        },
        KillOutcome::Refused => CloseStep::Finish(Err(kill_failure(port, pids[index], None))),
        KillOutcome::NotRun(d) => CloseStep::Finish(
            Err(kill_failure(port, pids[index], Some(d.as_str()))),
        ),
    }
}

} // verus!
