use vstd::prelude::*;

verus! {

/// Why an inbound request could not be turned into an upstream request.
#[derive(Debug, Clone, Copy, PartialEq, Eq, Structural)]
pub enum TranslateError {
    /// The body is larger than the configured cap and would have to be buffered.
    BodyTooLarge,
    /// A header value cannot be carried as an outbound header value.
    MalformedRequest,
}

/// Upstream calls always use plain HTTP.
pub open spec fn upstream_url_of(target_host: Seq<char>, uri: Seq<char>) -> Seq<char> {
    "http://"@ + target_host + uri
}

/// A byte that may stand in an outbound header value: a tab, or any byte from
/// space upward but DEL. Bytes above ASCII are carried as they are.
pub open spec fn header_byte_ok(b: u8) -> bool {
    b == 9 || (b >= 32 && b != 127)
}

pub open spec fn header_value_ok(v: Seq<u8>) -> bool {
    forall|k: int| 0 <= k < v.len() ==> header_byte_ok(#[trigger] v[k])
}

pub open spec fn header_values_ok(values: Seq<Vec<u8>>) -> bool {
    forall|k: int| 0 <= k < values.len() ==> header_value_ok(#[trigger] values[k]@)
}

pub open spec fn body_fits(declared_len: Option<u64>, cap: u64) -> bool {
    match declared_len {
        Some(n) => n <= cap,
        None => true,
    }
}

/// The URL of the upstream request: authority replaced by `target_host`,
/// path and query (`uri`) kept verbatim.
pub fn upstream_url(target_host: &str, uri: &str) -> (r: String)
    ensures
        r@ == upstream_url_of(target_host@, uri@),
{
    let mut url = String::from_str("http://");
    url.append(target_host);
    url.append(uri);
    url
}

pub fn is_valid_header_value(v: &Vec<u8>) -> (r: bool)
    ensures
        r == header_value_ok(v@),
{
    let mut k: usize = 0;
    while k < v.len()
        invariant
            k <= v@.len(),
            forall|m: int| 0 <= m < k ==> header_byte_ok(#[trigger] v@[m]),
        decreases v@.len() - k,
    {
        let b = v[k];
        if !(b == 9 || (b >= 32 && b != 127)) {
            return false;
        }
        k += 1;
    }
    true
}

/// Turns an inbound request into the URL of its upstream request. Method,
/// headers and protocol version travel unchanged; only the header values are
/// inspected, and the body's declared length is held against `body_cap`.
/// The body's length is checked first.
pub fn translate(
    target_host: &str,
    uri: &str,
    header_values: &Vec<Vec<u8>>,
    declared_body_len: Option<u64>,
    body_cap: u64,
) -> (r: Result<String, TranslateError>)
    ensures
        !body_fits(declared_body_len, body_cap) ==> r == Err::<String, TranslateError>(
            TranslateError::BodyTooLarge,
        ),
        body_fits(declared_body_len, body_cap) && !header_values_ok(header_values@) ==> r == Err::<
            String,
            TranslateError,
        >(TranslateError::MalformedRequest),
        body_fits(declared_body_len, body_cap) && header_values_ok(header_values@) ==> (r matches Ok(
            url,
        ) && url@ == upstream_url_of(target_host@, uri@)),
{
    match declared_body_len {
        Some(n) => {
            if n > body_cap {
                return Err(TranslateError::BodyTooLarge);
            }
        },
        None => {},
    }
    let mut k: usize = 0;
    while k < header_values.len()
        invariant
            k <= header_values@.len(),
            body_fits(declared_body_len, body_cap),
            forall|m: int| 0 <= m < k ==> header_value_ok(#[trigger] header_values@[m]@),
        decreases header_values@.len() - k,
    {
        if !is_valid_header_value(&header_values[k]) {
            return Err(TranslateError::MalformedRequest);
        }
        k += 1;
    }
    Ok(upstream_url(target_host, uri))
}

/// What the upstream URL holds: the plain scheme, then the target host as
/// authority, then the inbound path and query, unchanged.
pub proof fn lemma_upstream_url_parts(target_host: Seq<char>, uri: Seq<char>)
    ensures
        upstream_url_of(target_host, uri).len() == 7 + target_host.len() + uri.len(),
        upstream_url_of(target_host, uri).subrange(0, 7) == "http://"@,
        upstream_url_of(target_host, uri).subrange(7, 7 + target_host.len() as int) == target_host,
        uri.is_suffix_of(upstream_url_of(target_host, uri)),
{
    reveal_strlit("http://");
    let u = upstream_url_of(target_host, uri);
    assert(u.subrange(0, 7) =~= "http://"@);
    assert(u.subrange(7, 7 + target_host.len() as int) =~= target_host);
    assert(u.subrange(u.len() - uri.len(), u.len() as int) =~= uri);
}

} // verus!
