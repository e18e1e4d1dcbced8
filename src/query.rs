//! Queries of outbound API methods: a sequence of `key=value&` segments in bytes.
use crate::error::Error;
use crate::keyboard::Shape;
use vstd::prelude::*;
use vstd::string::StringSliceAdditionalSpecFns;

verus! {

/// The decimal digits of `n`.
pub open spec fn digits(n: nat) -> Seq<u8>
    decreases n,
{
    if n < 10 {
        seq![(48 + n) as u8]
    } else {
        digits(n / 10) + seq![(48 + n % 10) as u8]
    }
}

/// The decimal text of `n`, with a leading `-` when negative.
pub open spec fn decimal(n: int) -> Seq<u8> {
    if n < 0 {
        seq![45u8] + digits((-n) as nat)
    } else {
        digits(n as nat)
    }
}

/// Relies on itoa::Buffer::format, which writes an integer in decimal, with a
/// leading `-` for a negative one.
#[verifier::external_body]
fn decimal_bytes(n: i128) -> (r: Vec<u8>)
    ensures
        r@ == decimal(n as int),
{
    let mut buffer = itoa::Buffer::new();
    buffer.format(n).as_bytes().to_vec()
}

/// One query segment.
pub open spec fn arg_bytes(key: Seq<u8>, value: Seq<u8>) -> Seq<u8> {
    key + seq![61u8] + value + seq![38u8]
}

/// Whether `pat` occurs in `q` at position `k`.
pub open spec fn occurs_at(q: Seq<u8>, pat: Seq<u8>, k: int) -> bool {
    0 <= k && k + pat.len() <= q.len() && q.subrange(k, k + pat.len()) == pat
}

/// The first position from `k` on where `pat` occurs in `q`.
pub open spec fn first_occurrence(q: Seq<u8>, pat: Seq<u8>, k: int) -> Option<int>
    decreases q.len() + 1 - k,
{
    if k < 0 || k + pat.len() > q.len() {
        None
    } else if occurs_at(q, pat, k) {
        Some(k)
    } else {
        first_occurrence(q, pat, k + 1)
    }
}

/// The first position from `k` on that holds the byte `b`.
pub open spec fn first_byte(q: Seq<u8>, b: u8, k: int) -> Option<int>
    decreases q.len() - k,
{
    if k < 0 || k >= q.len() {
        None
    } else if q[k] == b {
        Some(k)
    } else {
        first_byte(q, b, k + 1)
    }
}

/// `q` without the segment that starts where `pat` first occurs: from there up
/// to and including the next `&` (or to the end where none follows).
pub open spec fn without_segment(q: Seq<u8>, pat: Seq<u8>) -> Seq<u8> {
    match first_occurrence(q, pat, 0) {
        None => q,
        Some(s) => match first_byte(q, 38u8, s) {
            Some(e) => q.subrange(0, s) + q.subrange(e + 1, q.len() as int),
            None => q.subrange(0, s),
        },
    }
}

/// `ids` in decimal, separated by commas.
pub open spec fn joined(ids: Seq<i64>) -> Seq<u8>
    decreases ids.len(),
{
    if ids.len() == 0 {
        Seq::empty()
    } else if ids.len() == 1 {
        decimal(ids[0] as int)
    } else {
        joined(ids.drop_last()) + seq![44u8] + decimal(ids.last() as int)
    }
}

/// Appends the bytes of `src` to `dst`.
fn append_bytes(dst: &mut Vec<u8>, src: &[u8])
    ensures
        final(dst)@ == old(dst)@ + src@,
{
    let mut i: usize = 0;
    while i < src.len()
        invariant
            0 <= i <= src.len(),
            dst@ == old(dst)@ + src@.subrange(0, i as int),
        decreases src.len() - i,
    {
        dst.push(src[i]);
        proof {
            assert(src@.subrange(0, i + 1) =~= src@.subrange(0, i as int).push(src@[i as int]));
        }
        i = i + 1;
    }
    proof {
        assert(src@.subrange(0, src@.len() as int) =~= src@);
    }
}

/// Appends the segment `key=value&` to `query`.
fn write_arg(query: &mut Vec<u8>, key: &[u8], value: &[u8])
    ensures
        final(query)@ == old(query)@ + arg_bytes(key@, value@),
{
    append_bytes(query, key);
    query.push(61u8);
    append_bytes(query, value);
    query.push(38u8);
    proof {
        assert(final(query)@ =~= old(query)@ + arg_bytes(key@, value@));
    }
}

/// The first position from `k` on where `pat` occurs in `q`.
fn find_pattern(q: &Vec<u8>, pat: &[u8]) -> (r: Option<usize>)
    ensures
        match first_occurrence(q@, pat@, 0) {
            Some(s) => r == Some(s as usize),
            None => r is None,
        },
{
    if pat.len() > q.len() {
        return None;
    }
    if pat.len() == 0 {
        proof {
            assert(q@.subrange(0, 0) =~= pat@);
        }
        return Some(0);
    }
    let last = q.len() - pat.len();
    let mut k: usize = 0;
    while k <= last
        invariant
            last + pat.len() == q.len(),
            pat.len() >= 1,
            k <= last + 1,
            first_occurrence(q@, pat@, 0) == first_occurrence(q@, pat@, k as int),
        decreases last + 1 - k,
    {
        let mut j: usize = 0;
        let mut same = true;
        proof {
            assert(q@.subrange(k as int, k as int) =~= pat@.subrange(0, 0));
        }
        while j < pat.len()
            invariant
                k + pat.len() <= q.len(),
                0 <= j <= pat.len(),
                same == (q@.subrange(k as int, k + j) == pat@.subrange(0, j as int)),
            decreases pat.len() - j,
        {
            if q[k + j] != pat[j] {
                proof {
                    assert(q@.subrange(k as int, k + j + 1)[j as int] != pat@.subrange(0, j + 1)[j as int]);
                }
                same = false;
            } else if same {
                proof {
                    assert(q@.subrange(k as int, k + j + 1) =~= q@.subrange(k as int, k + j).push(q@[k + j]));
                    assert(pat@.subrange(0, j + 1) =~= pat@.subrange(0, j as int).push(pat@[j as int]));
                }
            } else {
                proof {
                    assert(q@.subrange(k as int, k + j + 1).subrange(0, j as int) =~= q@.subrange(k as int, k + j));
                    assert(pat@.subrange(0, j + 1).subrange(0, j as int) =~= pat@.subrange(0, j as int));
                }
            }
            j = j + 1;
        }
        proof {
            assert(pat@.subrange(0, pat@.len() as int) =~= pat@);
        }
        if same {
            return Some(k);
        }
        k = k + 1;
    }
    None
}

/// The first position from `k` on that holds `b`.
fn find_byte(q: &Vec<u8>, b: u8, k: usize) -> (r: Option<usize>)
    requires
        k <= q.len(),
    ensures
        match first_byte(q@, b, k as int) {
            Some(e) => r == Some(e as usize),
            None => r is None,
        },
{
    let mut i: usize = k;
    while i < q.len()
        invariant
            k <= i <= q.len(),
            first_byte(q@, b, k as int) == first_byte(q@, b, i as int),
        decreases q.len() - i,
    {
        if q[i] == b {
            return Some(i);
        }
        i = i + 1;
    }
    None
}

/// Removes from `query` the segment that starts where `pat` first occurs.
fn remove_segment(query: &mut Vec<u8>, pat: &[u8])
    ensures
        final(query)@ == without_segment(old(query)@, pat@),
{
    if let Some(start) = find_pattern(query, pat) {
        proof {
            lemma_first_occurrence_bounds(query@, pat@, 0);
        }
        let end = match find_byte(query, 38u8, start) {
            Some(e) => {
                proof {
                    lemma_first_byte_bounds(query@, 38u8, start as int);
                }
                e + 1
            },
            None => query.len(),
        };
        let ghost before = query@;
        let mut rest: Vec<u8> = Vec::new();
        let mut i: usize = end;
        while i < query.len()
            invariant
                start <= end <= query.len(),
                query@ == before,
                end <= i <= query.len(),
                rest@ == before.subrange(end as int, i as int),
            decreases query.len() - i,
        {
            rest.push(query[i]);
            proof {
                assert(before.subrange(end as int, i + 1) =~= before.subrange(end as int, i as int).push(before[i as int]));
            }
            i = i + 1;
        }
        query.truncate(start);
        append_bytes(query, rest.as_slice());
        proof {
            assert(final(query)@ =~= without_segment(before, pat@));
        }
    }
}

proof fn lemma_first_occurrence_bounds(q: Seq<u8>, pat: Seq<u8>, k: int)
    ensures
        first_occurrence(q, pat, k) matches Some(s) ==> k <= s && s + pat.len() <= q.len()
            && occurs_at(q, pat, s),
    decreases q.len() + 1 - k,
{
    if !(k < 0 || k + pat.len() > q.len()) && !occurs_at(q, pat, k) {
        lemma_first_occurrence_bounds(q, pat, k + 1);
    }
}

proof fn lemma_first_byte_bounds(q: Seq<u8>, b: u8, k: int)
    ensures
        first_byte(q, b, k) matches Some(e) ==> k <= e < q.len() && q[e] == b,
    decreases q.len() - k,
{
    if !(k < 0 || k >= q.len()) && q[k] != b {
        lemma_first_byte_bounds(q, b, k + 1);
    }
}

/// Appends the segment `key=n&`, with `n` in decimal.
pub(crate) fn append_arg(query: &mut Vec<u8>, key: &[u8], n: i128)
    ensures
        final(query)@ == old(query)@ + arg_bytes(key@, decimal(n as int)),
{
    let value = decimal_bytes(n);
    write_arg(query, key, value.as_slice());
}

/// The segment that names the peer a method acts on.
pub open spec fn peer_arg(peer_id: i64) -> Seq<u8> {
    arg_bytes("peer_id".spec_bytes(), decimal(peer_id as int))
}

/// The query a method starts with: the peer segment when there is a peer.
pub open spec fn initial_query(peer_id: Option<i64>) -> Seq<u8> {
    match peer_id {
        Some(id) => peer_arg(id),
        None => Seq::empty(),
    }
}

/// The value of an attachment segment: type, owner and media id, as in `photo1_2`.
pub open spec fn attachment_value(media_type: Seq<u8>, owner_id: i64, media_id: i64) -> Seq<u8> {
    media_type + decimal(owner_id as int) + seq![95u8] + decimal(media_id as int)
}

/// `query` without its peer segment.
pub open spec fn without_peer(query: Seq<u8>) -> Seq<u8> {
    without_segment(query, "peer_id=".spec_bytes())
}

/// The most buttons a keyboard row may hold.
pub const MAX_COLUMNS: usize = 5;

/// The most rows a keyboard may hold.
pub const MAX_ROWS: usize = 10;

fn start_query(peer_id: Option<i64>) -> (r: Vec<u8>)
    ensures
        r@ == initial_query(peer_id),
{
    let mut query: Vec<u8> = Vec::new();
    if let Some(id) = peer_id {
        let value = decimal_bytes(id as i128);
        write_arg(&mut query, "peer_id".as_bytes(), value.as_slice());
        proof {
            assert(query@ =~= peer_arg(id));
        }
    }
    query
}

fn replace_peer(query: &mut Vec<u8>, peer_id: i64)
    ensures
        final(query)@ == without_peer(old(query)@) + peer_arg(peer_id),
{
    remove_segment(query, "peer_id=".as_bytes());
    let value = decimal_bytes(peer_id as i128);
    write_arg(query, "peer_id".as_bytes(), value.as_slice());
}

fn write_attachment(query: &mut Vec<u8>, media_type: &str, owner_id: i64, media_id: i64)
    ensures
        final(query)@ == old(query)@ + arg_bytes(
            "attachment".spec_bytes(),
            attachment_value(media_type.spec_bytes(), owner_id, media_id),
        ),
{
    let mut value: Vec<u8> = Vec::new();
    append_bytes(&mut value, media_type.as_bytes());
    let owner = decimal_bytes(owner_id as i128);
    append_bytes(&mut value, owner.as_slice());
    value.push(95u8);
    let media = decimal_bytes(media_id as i128);
    append_bytes(&mut value, media.as_slice());
    proof {
        assert(value@ =~= attachment_value(media_type.spec_bytes(), owner_id, media_id));
    }
    write_arg(query, "attachment".as_bytes(), value.as_slice());
}

fn join_ids(ids: &[i64]) -> (r: Vec<u8>)
    ensures
        r@ == joined(ids@),
{
    let mut out: Vec<u8> = Vec::new();
    let mut i: usize = 0;
    while i < ids.len()
        invariant
            0 <= i <= ids.len(),
            out@ == joined(ids@.subrange(0, i as int)),
        decreases ids.len() - i,
    {
        let ghost before = out@;
        if i > 0 {
            out.push(44u8);
        }
        let digits = decimal_bytes(ids[i] as i128);
        append_bytes(&mut out, digits.as_slice());
        proof {
            let next = ids@.subrange(0, i + 1);
            assert(next.drop_last() =~= ids@.subrange(0, i as int));
            assert(next.last() == ids@[i as int]);
            if i == 0 {
                assert(out@ =~= decimal(ids@[0] as int));
            } else {
                assert(out@ =~= before + seq![44u8] + decimal(ids@[i as int] as int));
            }
        }
        i = i + 1;
    }
    proof {
        assert(ids@.subrange(0, ids@.len() as int) =~= ids@);
    }
    out
}

/// The query of `messages.send`.
#[derive(Debug)]
pub struct SendMessage {
    query: Vec<u8>,
}

impl View for SendMessage {
    type V = Seq<u8>;

    closed spec fn view(&self) -> Seq<u8> {
        self.query@
    }
}

impl SendMessage {
    /// A message to `peer_id`, when given.
    pub fn new(peer_id: Option<i64>) -> (r: Self)
        ensures
            r@ == initial_query(peer_id),
    {
        SendMessage { query: start_query(peer_id) }
    }

    /// The query bytes.
    pub fn query(&self) -> (r: &[u8])
        ensures
            r@ == self@,
    {
        self.query.as_slice()
    }

    /// Sends to `peer_id` in place of the peer set before.
    pub fn peer_id(self, peer_id: i64) -> (r: Self)
        ensures
            r@ == without_peer(self@) + peer_arg(peer_id),
    {
        let mut query = self.query;
        replace_peer(&mut query, peer_id);
        SendMessage { query }
    }

    /// Sends to each of `peer_ids` in place of the peer set before.
    pub fn peer_ids(self, peer_ids: &[i64]) -> (r: Self)
        ensures
            r@ == without_peer(self@) + arg_bytes("peer_ids".spec_bytes(), joined(peer_ids@)),
    {
        let mut query = self.query;
        remove_segment(&mut query, "peer_id=".as_bytes());
        let ids = join_ids(peer_ids);
        write_arg(&mut query, "peer_ids".as_bytes(), ids.as_slice());
        SendMessage { query }
    }

    /// Attaches the media `{media_type}{owner_id}_{media_id}`.
    pub fn attachment(self, media_type: &str, owner_id: i64, media_id: i64) -> (r: Self)
        ensures
            r@ == self@ + arg_bytes(
                "attachment".spec_bytes(),
                attachment_value(media_type.spec_bytes(), owner_id, media_id),
            ),
    {
        let mut query = self.query;
        write_attachment(&mut query, media_type, owner_id, media_id);
        SendMessage { query }
    }

    /// Sets the text of the message.
    pub fn message(self, text: &str) -> (r: Self)
        ensures
            r@ == self@ + arg_bytes("message".spec_bytes(), text.spec_bytes()),
    {
        let mut query = self.query;
        write_arg(&mut query, "message".as_bytes(), text.as_bytes());
        SendMessage { query }
    }

    /// Sets the identifier that keeps the message from being sent twice.
    pub fn random_id(self, id: i32) -> (r: Self)
        ensures
            r@ == self@ + arg_bytes("random_id".spec_bytes(), decimal(id as int)),
    {
        let mut query = self.query;
        let value = decimal_bytes(id as i128);
        write_arg(&mut query, "random_id".as_bytes(), value.as_slice());
        SendMessage { query }
    }

    /// Attaches a keyboard of the given shape, whose JSON text is `layout`. A
    /// row may hold at most five buttons and a keyboard at most ten rows.
    pub fn keyboard(self, shape: Shape, layout: &str) -> (r: Result<Self, Error>)
        requires
            shape@.len() == 2,
        ensures
            shape@[1] > MAX_COLUMNS ==> r == Err::<Self, Error>(
                Error::DimOutOfRange { shape, dim: shape@[1] },
            ),
            shape@[1] <= MAX_COLUMNS && shape@[0] > MAX_ROWS ==> r == Err::<Self, Error>(
                Error::DimOutOfRange { shape, dim: shape@[0] },
            ),
            shape@[1] <= MAX_COLUMNS && shape@[0] <= MAX_ROWS ==> (r matches Ok(m) && m@ == self@
                + arg_bytes("keyboard".spec_bytes(), layout.spec_bytes())),
    {
        let columns = shape.dims()[1];
        let rows = shape.dims()[0];
        if columns > MAX_COLUMNS {
            return Err(Error::DimOutOfRange { shape, dim: columns });
        } else if rows > MAX_ROWS {
            return Err(Error::DimOutOfRange { shape, dim: rows });
        }
        let mut query = self.query;
        write_arg(&mut query, "keyboard".as_bytes(), layout.as_bytes());
        Ok(SendMessage { query })
    }
}

/// The query of `messages.edit`.
#[derive(Debug)]
pub struct EditMessage {
    query: Vec<u8>,
}

impl View for EditMessage {
    type V = Seq<u8>;

    closed spec fn view(&self) -> Seq<u8> {
        self.query@
    }
}

impl EditMessage {
    /// An edit in the conversation with `peer_id`, when given.
    pub fn new(peer_id: Option<i64>) -> (r: Self)
        ensures
            r@ == initial_query(peer_id),
    {
        EditMessage { query: start_query(peer_id) }
    }

    /// The query bytes.
    pub fn query(&self) -> (r: &[u8])
        ensures
            r@ == self@,
    {
        self.query.as_slice()
    }

    /// Edits in the conversation with `peer_id` in place of the peer set before.
    pub fn peer_id(self, peer_id: i64) -> (r: Self)
        ensures
            r@ == without_peer(self@) + peer_arg(peer_id),
    {
        let mut query = self.query;
        replace_peer(&mut query, peer_id);
        EditMessage { query }
    }

    /// Attaches the media `{media_type}{owner_id}_{media_id}`.
    pub fn attachment(self, media_type: &str, owner_id: i64, media_id: i64) -> (r: Self)
        ensures
            r@ == self@ + arg_bytes(
                "attachment".spec_bytes(),
                attachment_value(media_type.spec_bytes(), owner_id, media_id),
            ),
    {
        let mut query = self.query;
        write_attachment(&mut query, media_type, owner_id, media_id);
        EditMessage { query }
    }

    /// Sets the new text of the message.
    pub fn message(self, text: &str) -> (r: Self)
        ensures
            r@ == self@ + arg_bytes("message".spec_bytes(), text.spec_bytes()),
    {
        let mut query = self.query;
        write_arg(&mut query, "message".as_bytes(), text.as_bytes());
        EditMessage { query }
    }

    /// Names the message to edit by its identifier.
    pub fn message_id(self, id: i32) -> (r: Self)
        ensures
            r@ == self@ + arg_bytes("message_id".spec_bytes(), decimal(id as int)),
    {
        let mut query = self.query;
        let value = decimal_bytes(id as i128);
        write_arg(&mut query, "message_id".as_bytes(), value.as_slice());
        EditMessage { query }
    }
}

/// The query of `messages.sendMessageEventAnswer`.
#[derive(Debug)]
pub struct SendMessageEventAnswer {
    query: Vec<u8>,
}

impl View for SendMessageEventAnswer {
    type V = Seq<u8>;

    closed spec fn view(&self) -> Seq<u8> {
        self.query@
    }
}

impl SendMessageEventAnswer {
    /// An answer in the conversation with `peer_id`, when given.
    pub fn new(peer_id: Option<i64>) -> (r: Self)
        ensures
            r@ == initial_query(peer_id),
    {
        SendMessageEventAnswer { query: start_query(peer_id) }
    }

    /// The query bytes.
    pub fn query(&self) -> (r: &[u8])
        ensures
            r@ == self@,
    {
        self.query.as_slice()
    }

    /// Answers in the conversation with `peer_id` in place of the peer set before.
    pub fn peer_id(self, peer_id: i64) -> (r: Self)
        ensures
            r@ == without_peer(self@) + peer_arg(peer_id),
    {
        let mut query = self.query;
        replace_peer(&mut query, peer_id);
        SendMessageEventAnswer { query }
    }

    /// Names the callback event being answered.
    pub fn event_id(self, event_id: &str) -> (r: Self)
        ensures
            r@ == self@ + arg_bytes("event_id".spec_bytes(), event_id.spec_bytes()),
    {
        let mut query = self.query;
        write_arg(&mut query, "event_id".as_bytes(), event_id.as_bytes());
        SendMessageEventAnswer { query }
    }

    /// Names the user who pressed the button.
    pub fn user_id(self, user_id: i32) -> (r: Self)
        ensures
            r@ == self@ + arg_bytes("user_id".spec_bytes(), decimal(user_id as int)),
    {
        let mut query = self.query;
        let value = decimal_bytes(user_id as i128);
        write_arg(&mut query, "user_id".as_bytes(), value.as_slice());
        SendMessageEventAnswer { query }
    }

    /// Sets the action to perform, as JSON text (for example a snackbar).
    pub fn event_data(self, json: &str) -> (r: Self)
        ensures
            r@ == self@ + arg_bytes("event_data".spec_bytes(), json.spec_bytes()),
    {
        let mut query = self.query;
        write_arg(&mut query, "event_data".as_bytes(), json.as_bytes());
        SendMessageEventAnswer { query }
    }
}

} // verus!
