use vstd::prelude::*;

use base64::Engine as _;

use crate::catalog::{translate, translated, views, Backend};
use crate::language::Language;
use crate::provider::Credentials;

verus! {

/// The standard base64 text, with padding, of a byte sequence.
pub uninterp spec fn base64_of(b: Seq<u8>) -> Seq<char>;

/// Relies on `base64::engine::general_purpose::STANDARD.encode`: the
/// standard alphabet with padding, four characters for every started group
/// of three bytes. It panics only where that length overflows `usize`.
#[verifier::external_body]
fn encode_base64(bytes: &Vec<u8>) -> (r: String)
    requires
        bytes@.len() / 3 * 4 + 4 <= usize::MAX,
    ensures
        r@ == base64_of(bytes@),
        r@.len() == (bytes@.len() + 2) / 3 * 4,
{
    base64::engine::general_purpose::STANDARD.encode(bytes)
}

/// One POST to a remote recognition service.
#[derive(Clone, Debug)]
pub struct RemoteRequest {
    pub url: String,
    pub authorization: String,
    pub body: String,
    pub timeout_ms: u64,
}

/// `c` in double quotes, after a comma unless it is the first item.
pub open spec fn list_item(c: Seq<char>, first: bool) -> Seq<char> {
    if first {
        "\""@ + c + "\""@
    } else {
        ","@ + "\""@ + c + "\""@
    }
}

/// The items of `codes` as a JSON list body, without the brackets.
pub open spec fn quoted_list(codes: Seq<Seq<char>>) -> Seq<char>
    decreases codes.len(),
{
    if codes.len() == 0 {
        Seq::empty()
    } else {
        quoted_list(codes.drop_last()) + list_item(codes.last(), codes.len() == 1)
    }
}

/// The JSON body of a request: the image as base64 text and the language
/// codes in order.
pub open spec fn request_body(image: Seq<char>, codes: Seq<Seq<char>>) -> Seq<char> {
    "{\"image\":\""@ + image + "\",\"languages\":["@ + quoted_list(codes) + "]}"@
}

/// Builds the request for a JPEG image and the requested languages: the
/// service's endpoint, a bearer authorisation with its key, a JSON body with
/// the base64 image and the canonical language codes, and the service's
/// deadline.
pub fn remote_request(credentials: &Credentials, jpeg: &Vec<u8>, languages: &[Language]) -> (r:
    RemoteRequest)
    requires
        jpeg@.len() / 3 * 4 + 4 <= usize::MAX,
    ensures
        r.url@ == credentials.api_url@,
        r.authorization@ == "Bearer "@ + credentials.api_key@,
        r.body@ == request_body(
            base64_of(jpeg@),
            translated(Backend::Remote, languages@),
        ),
        r.timeout_ms == credentials.timeout_ms,
{
    let image = encode_base64(jpeg);
    let codes = translate(Backend::Remote, languages);
    let mut list = String::new();
    let mut i: usize = 0;
    while i < codes.len()
        invariant
            i <= codes@.len(),
            list@ == quoted_list(views(codes@).subrange(0, i as int)),
        decreases codes@.len() - i,
    {
        let ghost before = list@;
        if i > 0 {
            list.append(",");
        }
        list.append("\"");
        list.append(codes[i].as_str());
        list.append("\"");
        proof {
            let vs = views(codes@);
            assert(vs.subrange(0, i + 1).drop_last() =~= vs.subrange(0, i as int));
            assert(vs[i as int] == codes@[i as int]@);
            if i > 0 {
                assert(list@ =~= before + (","@ + "\""@ + codes@[i as int]@ + "\""@));
            } else {
                assert(list@ =~= before + ("\""@ + codes@[i as int]@ + "\""@));
            }
        }
        i = i + 1;
    }
    assert(views(codes@).subrange(0, codes@.len() as int) =~= views(codes@));
    let mut body = String::new();
    body.append("{\"image\":\"");
    body.append(image.as_str());
    body.append("\",\"languages\":[");
    body.append(list.as_str());
    body.append("]}");
    let mut authorization = String::new();
    authorization.append("Bearer ");
    authorization.append(credentials.api_key.as_str());
    RemoteRequest {
        url: credentials.api_url.clone(),
        authorization,
        body,
        timeout_ms: credentials.timeout_ms,
    }
}

} // verus!
