//! The header model of the proxy: plain names and opaque byte values, the
//! validity rule for header values, and the rewriting of inbound headers
//! into the outbound set that carries the session's credential.

use vstd::prelude::*;
use vstd::string::StringSliceAdditionalSpecFns;

verus! {

/// One HTTP header: its name as the HTTP layer hands it over (the transport
/// stores names lowercase), and its value as opaque bytes.
#[derive(Debug)]
pub struct Header {
    /// Header name, lowercase.
    pub name: String,
    /// Header value bytes.
    pub value: Vec<u8>,
}

impl View for Header {
    type V = (Seq<char>, Seq<u8>);

    open spec fn view(&self) -> (Seq<char>, Seq<u8>) {
        (self.name@, self.value@)
    }
}

/// An ordered list of headers.
#[derive(Debug)]
pub struct Headers {
    /// The headers, in the order the transport framed them.
    pub entries: Vec<Header>,
}

impl View for Headers {
    type V = Seq<(Seq<char>, Seq<u8>)>;

    open spec fn view(&self) -> Seq<(Seq<char>, Seq<u8>)> {
        self.entries@.map_values(|h: Header| h@)
    }
}

impl Headers {
    /// An empty header list.
    pub fn empty() -> (r: Headers)
        ensures
            r@ =~= Seq::<(Seq<char>, Seq<u8>)>::empty(),
    {
        Headers { entries: Vec::new() }
    }
}

/// A byte a header value may hold: horizontal tab, or any byte from space
/// onward other than delete. Values outside this set would be rejected by
/// the HTTP layer when the outbound request is built.
pub open spec fn valid_header_value_byte(b: u8) -> bool {
    b == 9 || (32 <= b && b != 127)
}

/// A header value every byte of which is permitted.
pub open spec fn valid_header_value(v: Seq<u8>) -> bool {
    forall|i: int| 0 <= i < v.len() ==> valid_header_value_byte(#[trigger] v[i])
}

/// Decides `valid_header_value` for a byte string.
pub fn is_valid_header_value(v: &[u8]) -> (r: bool)
    ensures
        r == valid_header_value(v@),
{
    let mut i: usize = 0;
    while i < v.len()
        invariant
            i <= v@.len(),
            forall|j: int| 0 <= j < i ==> valid_header_value_byte(#[trigger] v@[j]),
        decreases v@.len() - i,
    {
        let b = v[i];
        if !(b == 9 || (32 <= b && b != 127)) {
            return false;
        }
        i += 1;
    }
    true
}

/// A header name the proxy does not copy outbound: the transport-framing
/// headers (the forwarded body is fixed-length and fully buffered), and the
/// credential header, which is overwritten with the session's token.
pub open spec fn dropped_inbound_name(n: Seq<char>) -> bool {
    n == "transfer-encoding"@ || n == "content-length"@ || n == "x-token"@
}

/// The filter that keeps an inbound header: its name is none of the dropped
/// ones.
pub open spec fn keep_filter() -> spec_fn((Seq<char>, Seq<u8>)) -> bool {
    |e: (Seq<char>, Seq<u8>)| !dropped_inbound_name(e.0)
}

/// The outbound header set: every inbound header except the dropped names,
/// in inbound order, followed by the credential header bearing the session
/// token.
pub open spec fn forwarded_headers(
    inbound: Seq<(Seq<char>, Seq<u8>)>,
    token: Seq<u8>,
) -> Seq<(Seq<char>, Seq<u8>)> {
    inbound.filter(keep_filter()) + seq![("x-token"@, token)]
}

proof fn lemma_filter_push<A>(s: Seq<A>, x: A, pred: spec_fn(A) -> bool)
    ensures
        s.push(x).filter(pred) == s.filter(pred) + (if pred(x) {
            seq![x]
        } else {
            Seq::<A>::empty()
        }),
{
    reveal(Seq::filter);
    assert(s.push(x).drop_last() =~= s);
    assert(s.push(x).last() == x);
    if pred(x) {
        assert(s.push(x).filter(pred) =~= s.filter(pred) + seq![x]);
    } else {
        assert(s.push(x).filter(pred) =~= s.filter(pred) + Seq::<A>::empty());
    }
}

/// Copies a byte string.
pub fn copy_bytes(v: &[u8]) -> (r: Vec<u8>)
    ensures
        r@ == v@,
{
    let mut r: Vec<u8> = Vec::new();
    let mut i: usize = 0;
    while i < v.len()
        invariant
            i <= v@.len(),
            r@ =~= v@.subrange(0, i as int),
        decreases v@.len() - i,
    {
        r.push(v[i]);
        i += 1;
    }
    proof {
        assert(r@ =~= v@);
    }
    r
}

/// The UTF-8 bytes of a string, as a fresh byte vector.
pub fn str_value_bytes(s: &str) -> (r: Vec<u8>)
    ensures
        r@ == s.spec_bytes(),
{
    copy_bytes(s.as_bytes())
}

/// Builds the outbound header set from the inbound one: drops the
/// transport-framing headers and any client-supplied credential header, and
/// appends the credential header set to the session token.
pub fn outbound_headers(inbound: &Headers, token: &[u8]) -> (r: Headers)
    ensures
        r@ == forwarded_headers(inbound@, token@),
{
    let mut out: Vec<Header> = Vec::new();
    let mut i: usize = 0;
    while i < inbound.entries.len()
        invariant
            i <= inbound.entries@.len(),
            out@.map_values(|h: Header| h@) =~= inbound@.subrange(0, i as int).filter(keep_filter()),
        decreases inbound.entries@.len() - i,
    {
        let ghost out0 = out@;
        let e = &inbound.entries[i];
        let keep = !(crate::text::str_eq(e.name.as_str(), "transfer-encoding")
            || crate::text::str_eq(e.name.as_str(), "content-length")
            || crate::text::str_eq(e.name.as_str(), "x-token"));
        proof {
            assert(keep == keep_filter()(inbound@[i as int]));
            assert(inbound@.subrange(0, i + 1 as int) =~= inbound@.subrange(0, i as int).push(
                inbound@[i as int],
            ));
            lemma_filter_push(inbound@.subrange(0, i as int), inbound@[i as int], keep_filter());
        }
        if keep {
            let h = Header { name: e.name.clone(), value: copy_bytes(e.value.as_slice()) };
            proof {
                assert(h@ == inbound@[i as int]);
            }
            out.push(h);
            proof {
                assert(out@.map_values(|h: Header| h@) =~= out0.map_values(|h: Header| h@).push(
                    inbound@[i as int],
                ));
                assert(out@.map_values(|h: Header| h@) =~= inbound@.subrange(0, i as int).filter(
                    keep_filter(),
                ) + seq![inbound@[i as int]]);
            }
        } else {
            proof {
                assert(inbound@.subrange(0, i + 1 as int).filter(keep_filter()) =~= inbound@.subrange(
                    0,
                    i as int,
                ).filter(keep_filter()));
            }
        }
        i += 1;
    }
    proof {
        assert(inbound@.subrange(0, inbound@.len() as int) =~= inbound@);
    }
    let credential = Header { name: String::from_str("x-token"), value: copy_bytes(token) };
    out.push(credential);
    proof {
        assert(out@.map_values(|h: Header| h@) =~= forwarded_headers(inbound@, token@));
    }
    Headers { entries: out }
}

/// Law: for every inbound header set and token, the outbound set ends with
/// the credential header bearing exactly the session token, and no other
/// outbound entry uses the credential header's name — whatever value the
/// client supplied under that name is gone.
pub proof fn lemma_outbound_credential(inbound: Seq<(Seq<char>, Seq<u8>)>, token: Seq<u8>)
    ensures
        forwarded_headers(inbound, token).len() >= 1,
        forwarded_headers(inbound, token).last() == ("x-token"@, token),
        forall|i: int|
            0 <= i < forwarded_headers(inbound, token).len() - 1 ==> #[trigger] forwarded_headers(
                inbound,
                token,
            )[i].0 != "x-token"@,
{
    let pred = keep_filter();
    let kept = inbound.filter(pred);
    assert forall|i: int|
        0 <= i < forwarded_headers(inbound, token).len() - 1 implies #[trigger] forwarded_headers(
        inbound,
        token,
    )[i].0 != "x-token"@ by {
        inbound.lemma_filter_pred(pred, i);
        assert(forwarded_headers(inbound, token)[i] == kept[i]);
    }
}

/// Law: no outbound header is named `transfer-encoding` or `content-length`:
/// the transport-framing headers of the inbound request are never copied.
pub proof fn lemma_outbound_no_framing(inbound: Seq<(Seq<char>, Seq<u8>)>, token: Seq<u8>)
    ensures
        forall|i: int|
            0 <= i < forwarded_headers(inbound, token).len() ==> #[trigger] forwarded_headers(
                inbound,
                token,
            )[i].0 != "transfer-encoding"@ && forwarded_headers(inbound, token)[i].0
                != "content-length"@,
{
    let pred = keep_filter();
    let kept = inbound.filter(pred);
    assert(("x-token"@).len() != ("transfer-encoding"@).len() && ("x-token"@).len() != (
    "content-length"@).len()) by {
        reveal_strlit("x-token");
        reveal_strlit("transfer-encoding");
        reveal_strlit("content-length");
    }
    assert forall|i: int|
        0 <= i < forwarded_headers(inbound, token).len() implies #[trigger] forwarded_headers(
        inbound,
        token,
    )[i].0 != "transfer-encoding"@ && forwarded_headers(inbound, token)[i].0 != "content-length"@ by {
        if i < kept.len() {
            inbound.lemma_filter_pred(pred, i);
            assert(forwarded_headers(inbound, token)[i] == kept[i]);
        } else {
            assert(forwarded_headers(inbound, token)[i] == ("x-token"@, token));
        }
    }
}

/// Law: every inbound header outside the dropped names reaches the outbound
/// set unchanged.
pub proof fn lemma_outbound_preserves_others(
    inbound: Seq<(Seq<char>, Seq<u8>)>,
    token: Seq<u8>,
    i: int,
)
    requires
        0 <= i < inbound.len(),
        !dropped_inbound_name(inbound[i].0),
    ensures
        forwarded_headers(inbound, token).contains(inbound[i]),
{
    let pred = keep_filter();
    inbound.lemma_filter_contains(pred, i);
    let kept = inbound.filter(pred);
    let j = choose|j: int| 0 <= j < kept.len() && kept[j] == inbound[i];
    assert(forwarded_headers(inbound, token)[j] == inbound[i]);
}

/// Law: the outbound set invents nothing — each outbound header is either an
/// inbound header, copied unchanged, or the credential header bearing the
/// session token.
pub proof fn lemma_outbound_no_inventions(inbound: Seq<(Seq<char>, Seq<u8>)>, token: Seq<u8>)
    ensures
        forall|j: int|
            0 <= j < forwarded_headers(inbound, token).len() ==> inbound.contains(
                #[trigger] forwarded_headers(inbound, token)[j],
            ) || forwarded_headers(inbound, token)[j] == ("x-token"@, token),
{
    let pred = keep_filter();
    let kept = inbound.filter(pred);
    lemma_filter_subset(inbound, pred);
    assert forall|j: int|
        0 <= j < forwarded_headers(inbound, token).len() implies inbound.contains(
        #[trigger] forwarded_headers(inbound, token)[j],
    ) || forwarded_headers(inbound, token)[j] == ("x-token"@, token) by {
        if j < kept.len() {
            assert(forwarded_headers(inbound, token)[j] == kept[j]);
        } else {
            assert(forwarded_headers(inbound, token)[j] == ("x-token"@, token));
        }
    }
}

proof fn lemma_filter_subset<A>(s: Seq<A>, pred: spec_fn(A) -> bool)
    ensures
        forall|j: int| 0 <= j < s.filter(pred).len() ==> s.contains(#[trigger] s.filter(pred)[j]),
    decreases s.len(),
{
    reveal(Seq::filter);
    if s.len() > 0 {
        lemma_filter_subset(s.drop_last(), pred);
        assert forall|j: int| 0 <= j < s.filter(pred).len() implies s.contains(
            #[trigger] s.filter(pred)[j],
        ) by {
            if j < s.drop_last().filter(pred).len() {
                assert(s.filter(pred)[j] == s.drop_last().filter(pred)[j]);
                let k = choose|k: int|
                    0 <= k < s.drop_last().len() && s.drop_last()[k] == s.drop_last().filter(
                        pred,
                    )[j];
                assert(s[k] == s.filter(pred)[j]);
            } else {
                assert(s.filter(pred)[j] == s.last());
                assert(s[s.len() - 1] == s.last());
            }
        }
    }
}

} // verus!
