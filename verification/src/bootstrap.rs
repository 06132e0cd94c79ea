use vstd::prelude::*;
use crate::mutation::MutationRequest;

verus! {

/// The index of the first occurrence of `c` in `s` at or after `from`,
/// or `s.len()` when there is none.
pub open spec fn find_from(s: Seq<char>, c: char, from: int) -> int
    decreases s.len() - from,
{
    if from < 0 || from >= s.len() {
        s.len() as int
    } else if s[from] == c {
        from
    } else {
        find_from(s, c, from + 1)
    }
}

/// The session identifier a `set-cookie` header value carries: the text
/// between the first `=` and the next `=` or `;` (whichever comes
/// first) of the first cookie segment, or nothing when that segment has
/// no `=`.
pub open spec fn session_id_of(h: Seq<char>) -> Option<Seq<char>> {
    let seg_end = find_from(h, ';', 0);
    let eq = find_from(h, '=', 0);
    if eq >= seg_end {
        None
    } else {
        let next_eq = find_from(h, '=', eq + 1);
        let end = if next_eq < seg_end {
            next_eq
        } else {
            seg_end
        };
        Some(h.subrange(eq + 1, end))
    }
}

/// The first occurrence of `c` in `s` at or after `from`, or the length
/// of `s` when there is none.
fn find_char(s: &str, c: char, from: usize) -> (r: usize)
    requires
        from <= s@.len(),
    ensures
        r == find_from(s@, c, from as int),
        from <= r <= s@.len(),
{
    let n = s.unicode_len();
    let mut i = from;
    while i < n
        invariant
            from <= i <= n,
            n == s@.len(),
            find_from(s@, c, from as int) == find_from(s@, c, i as int),
        decreases n - i,
    {
        let ch = s.get_char(i);
        if ch == c {
            return i;
        }
        i += 1;
    }
    i
}

/// Extracts the session identifier from a `set-cookie` header value, as
/// `session_id_of` describes; `None` when the first cookie segment
/// carries no `=`.
pub fn extract_session_id(header: &str) -> (r: Option<String>)
    ensures
        match r {
            Some(id) => session_id_of(header@) == Some(id@),
            None => session_id_of(header@) is None,
        },
{
    let seg_end = find_char(header, ';', 0);
    let eq = find_char(header, '=', 0);
    if eq >= seg_end {
        None
    } else {
        let next_eq = find_char(header, '=', eq + 1);
        let end = if next_eq < seg_end {
            next_eq
        } else {
            seg_end
        };
        let id = header.substring_char(eq + 1, end);
        Some(id.to_owned())
    }
}

/// The cookie header value that carries the session identifier on every
/// authenticated request.
pub open spec fn session_cookie_of(id: Seq<char>) -> Seq<char> {
    "__session="@ + id
}

/// Builds the cookie header value for one session identifier.
pub fn session_cookie_value(id: &str) -> (r: String)
    ensures
        r@ == session_cookie_of(id@),
{
    String::from_str("__session=").concat(id)
}

/// The login endpoint.
pub open spec fn login_url() -> Seq<char> {
    "https://playit.gg/login?_data=routes%2Flogin"@
}

/// The form body that posts one set of credentials.
pub open spec fn login_body_of(email: Seq<char>, password: Seq<char>) -> Seq<char> {
    "_action=login&email="@ + email + "&password="@ + password
}

/// Builds the request that posts `email` and `password` to the login
/// endpoint.
pub fn login_request(email: &str, password: &str) -> (r: MutationRequest)
    ensures
        r.url@ == login_url(),
        r.body@ == login_body_of(email@, password@),
{
    let url = String::from_str("https://playit.gg/login?_data=routes%2Flogin");
    let body = String::from_str("_action=login&email=").concat(email).concat(
        "&password=",
    ).concat(password);
    MutationRequest { url, body }
}

} // verus!
