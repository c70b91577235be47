//! Requests and responses as plain values, and header lookup.

use crate::status::StatusCode;
use vstd::prelude::*;

verus! {

/// The lower-case form of an ASCII letter; any other byte is left as it is.
pub open spec fn ascii_lower(b: u8) -> u8 {
    if 0x41 <= b <= 0x5a {
        (b + 0x20) as u8
    } else {
        b
    }
}

/// Two header names are the same name when they differ at most in the case
/// of ASCII letters.
pub open spec fn same_name(a: Seq<u8>, b: Seq<u8>) -> bool {
    &&& a.len() == b.len()
    &&& forall|i: int| 0 <= i < a.len() ==> ascii_lower(#[trigger] a[i]) == ascii_lower(b[i])
}

/// What a header holds: its name and its value, byte for byte.
pub struct HeaderView {
    pub name: Seq<u8>,
    pub value: Seq<u8>,
}

/// One header line of a message.
#[derive(Clone, Debug, PartialEq, Eq)]
pub struct Header {
    pub name: Vec<u8>,
    pub value: Vec<u8>,
}

impl View for Header {
    type V = HeaderView;

    open spec fn view(&self) -> HeaderView {
        HeaderView { name: self.name@, value: self.value@ }
    }
}

/// The headers of a message, in the order in which they stand in it.
pub open spec fn headers_view(headers: Seq<Header>) -> Seq<HeaderView> {
    headers.map_values(|h: Header| h@)
}

/// The value of the first header named `name`, whatever the case of its
/// letters; `None` where no header has that name.
pub open spec fn header_value(headers: Seq<HeaderView>, name: Seq<u8>) -> Option<Seq<u8>>
    decreases headers.len(),
{
    if headers.len() == 0 {
        None
    } else if same_name(headers[0].name, name) {
        Some(headers[0].value)
    } else {
        header_value(headers.drop_first(), name)
    }
}

/// Whether `i` is the place of the first header named `name`.
pub open spec fn first_named(headers: Seq<HeaderView>, name: Seq<u8>, i: int) -> bool {
    &&& 0 <= i < headers.len()
    &&& same_name(headers[i].name, name)
    &&& forall|j: int| 0 <= j < i ==> !same_name((#[trigger] headers[j]).name, name)
}

/// Lookup skips the headers that have another name.
pub proof fn lemma_header_value_skip(headers: Seq<HeaderView>, name: Seq<u8>, n: int)
    requires
        0 <= n <= headers.len(),
        forall|j: int| 0 <= j < n ==> !same_name((#[trigger] headers[j]).name, name),
    ensures
        header_value(headers, name) == header_value(headers.skip(n), name),
    decreases n,
{
    if n == 0 {
        assert(headers.skip(0) =~= headers);
    } else {
        let rest = headers.drop_first();
        assert forall|j: int| 0 <= j < n - 1 implies !same_name((#[trigger] rest[j]).name, name) by {
            assert(rest[j] == headers[j + 1]);
        }
        lemma_header_value_skip(rest, name, n - 1);
        assert(rest.skip(n - 1) =~= headers.skip(n));
    }
}

/// Lookup finds the first header of that name, and finds nothing exactly
/// when no header has it.
pub proof fn lemma_header_value_first(headers: Seq<HeaderView>, name: Seq<u8>)
    ensures
        header_value(headers, name) is None <==> forall|j: int|
            0 <= j < headers.len() ==> !same_name((#[trigger] headers[j]).name, name),
        forall|i: int| first_named(headers, name, i) ==> header_value(headers, name) == Some(
            headers[i].value,
        ),
    decreases headers.len(),
{
    if headers.len() == 0 {
    } else {
        let rest = headers.drop_first();
        lemma_header_value_first(rest, name);
        if same_name(headers[0].name, name) {
            assert forall|i: int| first_named(headers, name, i) implies i == 0 by {
                if i > 0 {
                    assert(!same_name(headers[0].name, name));
                }
            }
        } else {
            assert forall|j: int| 0 <= j < rest.len() implies rest[j] == headers[j + 1] by {}
            if header_value(rest, name) is None {
                assert forall|j: int| 0 <= j < headers.len() implies !same_name(
                    (#[trigger] headers[j]).name,
                    name,
                ) by {
                    if j > 0 {
                        assert(rest[j - 1] == headers[j]);
                    }
                }
            } else {
                let k = choose|k: int| 0 <= k < rest.len() && same_name(rest[k].name, name);
                assert(same_name(headers[k + 1].name, name));
            }
            assert forall|i: int| first_named(headers, name, i) implies header_value(headers, name)
                == Some(headers[i].value) by {
                assert(i > 0);
                assert(rest[i - 1] == headers[i]);
                assert forall|j: int| 0 <= j < i - 1 implies !same_name(
                    (#[trigger] rest[j]).name,
                    name,
                ) by {
                    assert(rest[j] == headers[j + 1]);
                }
                assert(first_named(rest, name, i - 1));
            }
        }
    }
}

/// Names that differ only in case are one name to every other name.
pub proof fn lemma_same_name_transfers(a: Seq<u8>, b: Seq<u8>, c: Seq<u8>)
    requires
        same_name(a, b),
    ensures
        same_name(a, a),
        same_name(b, a),
        same_name(c, a) == same_name(c, b),
{
    if same_name(c, a) {
        assert forall|i: int| 0 <= i < c.len() implies ascii_lower(#[trigger] c[i]) == ascii_lower(
            b[i],
        ) by {
            assert(ascii_lower(a[i]) == ascii_lower(b[i]));
        }
    }
    if same_name(c, b) {
        assert forall|i: int| 0 <= i < c.len() implies ascii_lower(#[trigger] c[i]) == ascii_lower(
            a[i],
        ) by {
            assert(ascii_lower(a[i]) == ascii_lower(b[i]));
        }
    }
}

/// Lookup does not tell the case of letters apart: names that differ only
/// in case find the same header.
pub proof fn lemma_lookup_ignores_case(headers: Seq<HeaderView>, a: Seq<u8>, b: Seq<u8>)
    requires
        same_name(a, b),
    ensures
        header_value(headers, a) == header_value(headers, b),
    decreases headers.len(),
{
    if headers.len() > 0 {
        lemma_same_name_transfers(a, b, headers[0].name);
        lemma_lookup_ignores_case(headers.drop_first(), a, b);
    }
}

/// The lower-case form of an ASCII letter; any other byte is left as it is.
pub fn to_ascii_lower(b: u8) -> (r: u8)
    ensures
        r == ascii_lower(b),
{
    if 0x41 <= b && b <= 0x5a {
        b + 0x20
    } else {
        b
    }
}

/// Whether `a` and `b` are the same header name.
pub fn names_match(a: &[u8], b: &[u8]) -> (r: bool)
    ensures
        r == same_name(a@, b@),
{
    if a.len() != b.len() {
        return false;
    }
    let mut i: usize = 0;
    while i < a.len()
        invariant
            a.len() == b.len(),
            0 <= i <= a.len(),
            forall|k: int| 0 <= k < i ==> ascii_lower(#[trigger] a@[k]) == ascii_lower(b@[k]),
        decreases a.len() - i,
    {
        if to_ascii_lower(a[i]) != to_ascii_lower(b[i]) {
            return false;
        }
        i += 1;
    }
    true
}

/// Whether `a` and `b` hold the same bytes.
pub fn bytes_equal(a: &[u8], b: &[u8]) -> (r: bool)
    ensures
        r == (a@ == b@),
{
    if a.len() != b.len() {
        return false;
    }
    let mut i: usize = 0;
    while i < a.len()
        invariant
            a.len() == b.len(),
            0 <= i <= a.len(),
            forall|k: int| 0 <= k < i ==> a@[k] == b@[k],
        decreases a.len() - i,
    {
        if a[i] != b[i] {
            return false;
        }
        i += 1;
    }
    assert(a@ =~= b@);
    true
}

/// The value of the first of `headers` named `name`, whatever the case of its
/// letters.
pub fn find_header<'a>(headers: &'a Vec<Header>, name: &[u8]) -> (r: Option<&'a Vec<u8>>)
    ensures
        match r {
            Some(value) => header_value(headers_view(headers@), name@) == Some(value@),
            None => header_value(headers_view(headers@), name@) is None,
        },
{
    let ghost all = headers_view(headers@);
    let mut i: usize = 0;
    while i < headers.len()
        invariant
            all == headers_view(headers@),
            0 <= i <= headers.len(),
            forall|j: int| 0 <= j < i ==> !same_name((#[trigger] all[j]).name, name@),
        decreases headers.len() - i,
    {
        if names_match(headers[i].name.as_slice(), name) {
            proof {
                lemma_header_value_skip(all, name@, i as int);
                assert(all.skip(i as int)[0] == headers@[i as int]@);
            }
            return Some(&headers[i].value);
        }
        i += 1;
    }
    proof {
        lemma_header_value_skip(all, name@, i as int);
    }
    None
}

/// What a request holds.
pub struct RequestView {
    pub method: Seq<char>,
    pub target: Seq<char>,
    pub headers: Seq<HeaderView>,
    pub body: Seq<u8>,
}

/// One request, as the wire codec decoded it.
#[derive(Clone, Debug, PartialEq, Eq)]
pub struct Request {
    pub method: String,
    pub target: String,
    pub headers: Vec<Header>,
    pub body: Vec<u8>,
}

impl View for Request {
    type V = RequestView;

    open spec fn view(&self) -> RequestView {
        RequestView {
            method: self.method@,
            target: self.target@,
            headers: headers_view(self.headers@),
            body: self.body@,
        }
    }
}

/// What a response holds.
pub struct ResponseView {
    pub status: StatusCode,
    pub headers: Seq<HeaderView>,
    pub body: Seq<u8>,
}

/// One response, as the wire codec will encode it.
#[derive(Clone, Debug, PartialEq, Eq)]
pub struct Response {
    pub status: StatusCode,
    pub headers: Vec<Header>,
    pub body: Vec<u8>,
}

impl View for Response {
    type V = ResponseView;

    open spec fn view(&self) -> ResponseView {
        ResponseView {
            status: self.status,
            headers: headers_view(self.headers@),
            body: self.body@,
        }
    }
}

impl Request {
    /// The value of the first header named `name`, whatever the case of its
    /// letters.
    pub fn header(&self, name: &[u8]) -> (r: Option<&Vec<u8>>)
        ensures
            match r {
                Some(value) => header_value(self@.headers, name@) == Some(value@),
                None => header_value(self@.headers, name@) is None,
            },
    {
        find_header(&self.headers, name)
    }
}

impl Response {
    /// The value of the first header named `name`, whatever the case of its
    /// letters.
    pub fn header(&self, name: &[u8]) -> (r: Option<&Vec<u8>>)
        ensures
            match r {
                Some(value) => header_value(self@.headers, name@) == Some(value@),
                None => header_value(self@.headers, name@) is None,
            },
    {
        find_header(&self.headers, name)
    }
}

} // verus!
