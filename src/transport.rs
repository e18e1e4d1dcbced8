//! The requests the library sends: method URLs with their encoded queries, the
//! negotiation query and the long-poll URL of a session.
use crate::query::{append_arg, arg_bytes, decimal};
use crate::session::LongPollSession;
use vstd::prelude::*;
use vstd::string::StringSliceAdditionalSpecFns;
use vstd::utf8::encode_utf8;

verus! {

/// The endpoint of API methods.
pub const VK: &'static str = "https://api.vk.com/method";

/// The API version the library speaks.
pub const VERSION: &'static str = "5.199";

/// The method that negotiates a long-poll session.
pub const GET_LONG_POLL_SERVER: &'static str = "groups.getLongPollServer";

/// How long, in seconds, the server holds a poll open when nothing happens.
pub const WAIT_TIME: u8 = 25;

/// Whether a byte is left as it is by percent-encoding.
pub open spec fn unreserved(b: u8) -> bool {
    (48 <= b <= 57) || (65 <= b <= 90) || (97 <= b <= 122) || b == 45 || b == 46 || b == 95
        || b == 126
}

/// The upper-case hexadecimal digit of `d` (below 16).
pub open spec fn hex_digit(d: u8) -> char {
    if d < 10 {
        ((48 + d) as u8) as char
    } else {
        ((55 + d) as u8) as char
    }
}

/// One byte, percent-encoded.
pub open spec fn encoded_byte(b: u8) -> Seq<char> {
    if unreserved(b) {
        seq![b as char]
    } else {
        seq!['%', hex_digit(b / 16), hex_digit(b % 16)]
    }
}

/// Each byte of `bs` percent-encoded.
pub open spec fn percent_encoded(bs: Seq<u8>) -> Seq<char>
    decreases bs.len(),
{
    if bs.len() == 0 {
        Seq::empty()
    } else {
        percent_encoded(bs.drop_last()) + encoded_byte(bs.last())
    }
}

/// A query, percent-encoded but for its `=` and `&` separators.
pub open spec fn query_encoded(q: Seq<u8>) -> Seq<char>
    decreases q.len(),
{
    if q.len() == 0 {
        Seq::empty()
    } else {
        let b = q.last();
        query_encoded(q.drop_last()) + if b == 61 || b == 38 {
            seq![b as char]
        } else {
            encoded_byte(b)
        }
    }
}

/// Relies on urlencoding::encode_binary, which percent-encodes every byte but
/// ASCII letters, digits and `-`, `.`, `_`, `~`, with upper-case hex digits.
#[verifier::external_body]
fn percent_encode(data: &[u8]) -> (r: String)
    ensures
        r@ == percent_encoded(data@),
{
    urlencoding::encode_binary(data).into_owned()
}

/// `query` percent-encoded, with its `=` and `&` separators kept as they are.
pub fn encode_query(query: &[u8]) -> (r: String)
    ensures
        r@ == query_encoded(query@),
{
    let mut out = String::new();
    let mut run: Vec<u8> = Vec::new();
    let mut i: usize = 0;
    proof {
        reveal_strlit("=");
        reveal_strlit("&");
    }
    while i < query.len()
        invariant
            0 <= i <= query.len(),
            out@ + percent_encoded(run@) == query_encoded(query@.subrange(0, i as int)),
            "="@ == seq!['='],
            "&"@ == seq!['&'],
        decreases query.len() - i,
    {
        let b = query[i];
        let ghost prefix = query@.subrange(0, i + 1);
        proof {
            assert(prefix.drop_last() =~= query@.subrange(0, i as int));
        }
        if b == 61u8 || b == 38u8 {
            let encoded = percent_encode(run.as_slice());
            out.append(encoded.as_str());
            if b == 61u8 {
                out.append("=");
            } else {
                out.append("&");
            }
            run = Vec::new();
            proof {
                assert(percent_encoded(run@) =~= Seq::<char>::empty());
            }
        } else {
            let ghost old_run = run@;
            run.push(b);
            proof {
                assert(run@.drop_last() =~= old_run);
            }
        }
        i = i + 1;
    }
    let encoded = percent_encode(run.as_slice());
    out.append(encoded.as_str());
    proof {
        assert(query@.subrange(0, query@.len() as int) =~= query@);
    }
    out
}

/// The URL that calls `method` with `query`, which ends in `&` or is empty.
pub fn method_url(method: &str, query: &[u8]) -> (r: String)
    ensures
        r@ == VK@ + "/"@ + method@ + "?"@ + query_encoded(query@) + "v="@ + VERSION@,
{
    let mut url = String::from_str(VK);
    url.append("/");
    url.append(method);
    url.append("?");
    url.append(encode_query(query).as_str());
    url.append("v=");
    url.append(VERSION);
    url
}

/// The query that negotiates a long-poll session for the community `group_id`.
pub fn negotiation_query(group_id: u64) -> (r: Vec<u8>)
    ensures
        r@ == arg_bytes("group_id".spec_bytes(), decimal(group_id as int)),
{
    let mut query: Vec<u8> = Vec::new();
    append_arg(&mut query, "group_id".as_bytes(), group_id as i128);
    proof {
        assert(query@ =~= arg_bytes("group_id".spec_bytes(), decimal(group_id as int)));
    }
    query
}

impl LongPollSession {
    /// The URL that polls this session: its server, with its key and cursor
    /// percent-encoded and a wait of 25 seconds.
    pub fn poll_url(&self) -> (r: String)
        ensures
            r@ == self.server@ + "?act=check&key="@ + percent_encoded(encode_utf8(self.key@))
                + "&ts="@ + percent_encoded(encode_utf8(self.ts@)) + "&wait=25"@,
    {
        let mut url = self.server.clone();
        url.append("?act=check&key=");
        url.append(percent_encode(self.key.as_str().as_bytes()).as_str());
        url.append("&ts=");
        url.append(percent_encode(self.ts.as_str().as_bytes()).as_str());
        url.append("&wait=25");
        url
    }
}

/// The position of the last `.` in `s`.
pub open spec fn last_dot(s: Seq<char>) -> Option<int>
    decreases s.len(),
{
    if s.len() == 0 {
        None
    } else if s.last() == '.' {
        Some(s.len() - 1)
    } else {
        last_dot(s.drop_last())
    }
}

/// What follows the last `.` of a file name; empty where it has none.
pub open spec fn extension(name: Seq<char>) -> Seq<char> {
    match last_dot(name) {
        Some(i) => name.subrange(i + 1, name.len() as int),
        None => Seq::empty(),
    }
}

/// The media type under which a photo file named `filename` is uploaded.
pub fn image_mime_type(filename: &str) -> (r: String)
    ensures
        r@ == "image/"@ + extension(filename@),
{
    let n = filename.unicode_len();
    let mut i: usize = n;
    proof {
        assert(filename@.subrange(0, n as int) =~= filename@);
    }
    while i > 0 && filename.get_char(i - 1) != '.'
        invariant
            n == filename@.len(),
            i <= n,
            last_dot(filename@) == last_dot(filename@.subrange(0, i as int)),
        decreases i,
    {
        proof {
            assert(filename@.subrange(0, i as int).drop_last() =~= filename@.subrange(0, i - 1));
        }
        i = i - 1;
    }
    let mut mime = String::from_str("image/");
    if i > 0 {
        proof {
            assert(filename@.subrange(0, i as int).last() == filename@[i - 1]);
        }
        mime.append(filename.substring_char(i, n));
    } else {
        proof {
            assert(extension(filename@) =~= Seq::<char>::empty());
        }
    }
    mime
}

} // verus!
