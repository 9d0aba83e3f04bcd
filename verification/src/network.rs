//! A mock HTTP exchange for tests: requests and responses as plain records,
//! and a client that serves mocked responses by URL, first queued first
//! served, while recording every request it was handed.

use vstd::prelude::*;

verus! {

/// A recorded HTTP request: method, URL, headers in the order they were
/// added, and the body.
#[derive(Debug, Clone, PartialEq)]
pub struct MockHttpRequest {
    pub url: String,
    pub method: String,
    pub headers: Vec<(String, String)>,
    pub body: Vec<u8>,
}

/// A mocked HTTP response: status, headers in the order they were added, and
/// the body.
#[derive(Debug, Clone, PartialEq)]
pub struct MockHttpResponse {
    pub status: u16,
    pub headers: Vec<(String, String)>,
    pub body: Vec<u8>,
}

/// One header written into a list: the first pair of the same name has its
/// value replaced, or the pair is appended when the name is new.
pub open spec fn header_written(
    pre: Seq<(String, String)>,
    post: Seq<(String, String)>,
    name: Seq<char>,
    value: Seq<char>,
) -> bool {
    exists|n: String, v: String|
        #![trigger n@, v@]
        n@ == name && v@ == value && if exists|k: int|
            0 <= k < pre.len() && (#[trigger] pre[k]).0@ == name {
            exists|i: int|
                0 <= i < pre.len() && (#[trigger] pre[i]).0@ == name && (forall|j: int|
                    0 <= j < i ==> (#[trigger] pre[j]).0@ != name) && post == pre.update(i, (n, v))
        } else {
            post == pre.push((n, v))
        }
}

/// The position of the first header with the given name, if any.
fn find_header(headers: &Vec<(String, String)>, name: &String) -> (r: Option<usize>)
    ensures
        match r {
            Some(i) => 0 <= i < headers@.len() && (headers@[i as int]).0@ == name@ && (forall|
                j: int,
            | 0 <= j < i ==> (#[trigger] headers@[j]).0@ != name@),
            None => forall|j: int| 0 <= j < headers@.len() ==> (#[trigger] headers@[j]).0@
                != name@,
        },
{
    let mut i: usize = 0;
    while i < headers.len()
        invariant
            i <= headers@.len(),
            forall|j: int| 0 <= j < i ==> (#[trigger] headers@[j]).0@ != name@,
        decreases headers@.len() - i,
    {
        if headers[i].0.eq(name) {
            return Some(i);
        }
        i += 1;
    }
    None
}

/// Writes one header into a list: replaces the value of the first pair of
/// the same name, or appends the pair when the name is new.
fn write_header(headers: &mut Vec<(String, String)>, name: &str, value: &str)
    ensures
        header_written(old(headers)@, final(headers)@, name@, value@),
{
    let owned_name = name.to_owned();
    let owned_value = value.to_owned();
    let found = find_header(headers, &owned_name);
    match found {
        Some(i) => {
            headers.set(i, (owned_name, owned_value));
        },
        None => {
            headers.push((owned_name, owned_value));
        },
    }
}

impl MockHttpRequest {
    /// A request of the given method and URL, with no headers and an empty
    /// body.
    pub fn new(method: &str, url: &str) -> (r: Self)
        ensures
            r.method@ == method@,
            r.url@ == url@,
            r.headers@ == Seq::<(String, String)>::empty(),
            r.body@ == Seq::<u8>::empty(),
    {
        MockHttpRequest {
            method: method.to_owned(),
            url: url.to_owned(),
            headers: Vec::new(),
            body: Vec::new(),
        }
    }

    /// This request with one header written: a header of the same name is
    /// replaced, a new name is appended.
    pub fn with_header(self, name: &str, value: &str) -> (r: Self)
        ensures
            r.url == self.url,
            r.method == self.method,
            r.body == self.body,
            header_written(self.headers@, r.headers@, name@, value@),
    {
        let mut headers = self.headers;
        write_header(&mut headers, name, value);
        MockHttpRequest { headers, ..self }
    }

    /// This request with its body replaced.
    pub fn with_body(self, body: Vec<u8>) -> (r: Self)
        ensures
            r.url == self.url,
            r.method == self.method,
            r.headers == self.headers,
            r.body == body,
    {
        MockHttpRequest { body, ..self }
    }
}

impl MockHttpResponse {
    /// A response of the given status and body, with no headers.
    pub fn new(status: u16, body: Vec<u8>) -> (r: Self)
        ensures
            r.status == status,
            r.headers@ == Seq::<(String, String)>::empty(),
            r.body == body,
    {
        MockHttpResponse { status, headers: Vec::new(), body }
    }

    /// This response with one header written: a header of the same name is
    /// replaced, a new name is appended.
    pub fn with_header(self, name: &str, value: &str) -> (r: Self)
        ensures
            r.status == self.status,
            r.body == self.body,
            header_written(self.headers@, r.headers@, name@, value@),
    {
        let mut headers = self.headers;
        write_header(&mut headers, name, value);
        MockHttpResponse { headers, ..self }
    }

    /// A response carrying a JSON body.
    pub fn json(status: u16, body: Vec<u8>) -> (r: Self)
        ensures
            r.status == status,
            r.body == body,
            r.headers@.len() == 1,
            r.headers@[0].0@ == "Content-Type"@,
            r.headers@[0].1@ == "application/json"@,
    {
        Self::new(status, body).with_header("Content-Type", "application/json")
    }

    /// A response carrying a plain-text body.
    pub fn text(status: u16, body: Vec<u8>) -> (r: Self)
        ensures
            r.status == status,
            r.body == body,
            r.headers@.len() == 1,
            r.headers@[0].0@ == "Content-Type"@,
            r.headers@[0].1@ == "text/plain"@,
    {
        Self::new(status, body).with_header("Content-Type", "text/plain")
    }
}

/// A mock HTTP client: mocked responses queued per URL and a record of every
/// request made against it.
pub struct MockHttpClient {
    responses: Vec<(String, MockHttpResponse)>,
    request_history: Vec<MockHttpRequest>,
}

impl MockHttpClient {
    /// The queue of mocked responses still to be served, each under the URL
    /// it answers, oldest first.
    pub closed spec fn responses_spec(&self) -> Seq<(String, MockHttpResponse)> {
        self.responses@
    }

    /// The requests made so far, oldest first.
    pub closed spec fn history_spec(&self) -> Seq<MockHttpRequest> {
        self.request_history@
    }

    /// A client with nothing mocked and nothing recorded.
    pub fn new() -> (r: Self)
        ensures
            r.responses_spec() == Seq::<(String, MockHttpResponse)>::empty(),
            r.history_spec() == Seq::<MockHttpRequest>::empty(),
    {
        MockHttpClient { responses: Vec::new(), request_history: Vec::new() }
    }

    /// Queues a response for the given URL, behind any already queued for it.
    pub fn mock_response(&mut self, url: &str, response: MockHttpResponse)
        ensures
            final(self).history_spec() == old(self).history_spec(),
            exists|u: String| u@ == url@ && final(self).responses_spec() == old(
                self,
            ).responses_spec().push((u, response)),
    {
        self.responses.push((url.to_owned(), response));
    }

    /// The requests made so far, oldest first.
    pub fn get_request_history(&self) -> (r: &[MockHttpRequest])
        ensures
            r@ == self.history_spec(),
    {
        self.request_history.as_slice()
    }

    /// Forgets the recorded requests.
    pub fn clear_request_history(&mut self)
        ensures
            final(self).history_spec() == Seq::<MockHttpRequest>::empty(),
            final(self).responses_spec() == old(self).responses_spec(),
    {
        self.request_history.clear();
    }

    /// Records the request, then serves the oldest response queued under its
    /// URL; with none queued, the request fails.
    pub fn request(&mut self, request: MockHttpRequest) -> (r: Result<
        MockHttpResponse,
        String,
    >)
        ensures
            final(self).history_spec() == old(self).history_spec().push(request),
            match r {
                Ok(response) => exists|i: int|
                    0 <= i < old(self).responses_spec().len()
                    && (#[trigger] old(self).responses_spec()[i]).0@ == request.url@
                    && (forall|j: int| 0 <= j < i ==> (#[trigger] old(
                        self,
                    ).responses_spec()[j]).0@ != request.url@)
                    && response == old(self).responses_spec()[i].1
                    && final(self).responses_spec() == old(self).responses_spec().remove(i),
                Err(_) => final(self).responses_spec() == old(self).responses_spec()
                    && (forall|j: int| 0 <= j < old(self).responses_spec().len() ==> (
                    #[trigger] old(self).responses_spec()[j]).0@ != request.url@),
            },
    {
        let index = self.find_response(&request.url);
        self.request_history.push(request);
        match index {
            Some(i) => {
                let (_, response) = self.responses.remove(i);
                Ok(response)
            },
            None => Err("no response was mocked for this URL".to_owned()),
        }
    }

    /// The position of the oldest response queued under the URL, if any.
    fn find_response(&self, url: &String) -> (r: Option<usize>)
        ensures
            match r {
                Some(i) => 0 <= i < self.responses_spec().len()
                    && (self.responses_spec()[i as int]).0@ == url@
                    && (forall|j: int| 0 <= j < i ==> (#[trigger] self.responses_spec()[j]).0@
                        != url@),
                None => forall|j: int| 0 <= j < self.responses_spec().len() ==> (
                #[trigger] self.responses_spec()[j]).0@ != url@,
            },
    {
        let mut i: usize = 0;
        while i < self.responses.len()
            invariant
                i <= self.responses@.len(),
                forall|j: int| 0 <= j < i ==> (#[trigger] self.responses@[j]).0@ != url@,
            decreases self.responses@.len() - i,
        {
            if self.responses[i].0.eq(url) {
                return Some(i);
            }
            i += 1;
        }
        None
    }

    /// Makes a GET request against the mocked responses.
    pub fn get(&mut self, url: &str) -> (r: Result<MockHttpResponse, String>)
        ensures
            final(self).requested(*old(self), url@, "GET"@, Seq::<u8>::empty(), r),
    {
        let request = MockHttpRequest::new("GET", url);
        self.request(request)
    }

    /// Makes a POST request with the given body.
    pub fn post(&mut self, url: &str, body: Vec<u8>) -> (r: Result<MockHttpResponse, String>)
        ensures
            final(self).requested(*old(self), url@, "POST"@, body@, r),
    {
        let request = MockHttpRequest::new("POST", url).with_body(body);
        self.request(request)
    }

    /// Makes a PUT request with the given body.
    pub fn put(&mut self, url: &str, body: Vec<u8>) -> (r: Result<MockHttpResponse, String>)
        ensures
            final(self).requested(*old(self), url@, "PUT"@, body@, r),
    {
        let request = MockHttpRequest::new("PUT", url).with_body(body);
        self.request(request)
    }

    /// Makes a DELETE request.
    pub fn delete(&mut self, url: &str) -> (r: Result<MockHttpResponse, String>)
        ensures
            final(self).requested(*old(self), url@, "DELETE"@, Seq::<u8>::empty(), r),
    {
        let request = MockHttpRequest::new("DELETE", url);
        self.request(request)
    }

    /// Makes a PATCH request with the given body.
    pub fn patch(&mut self, url: &str, body: Vec<u8>) -> (r: Result<MockHttpResponse, String>)
        ensures
            final(self).requested(*old(self), url@, "PATCH"@, body@, r),
    {
        let request = MockHttpRequest::new("PATCH", url).with_body(body);
        self.request(request)
    }

    /// Makes a HEAD request.
    pub fn head(&mut self, url: &str) -> (r: Result<MockHttpResponse, String>)
        ensures
            final(self).requested(*old(self), url@, "HEAD"@, Seq::<u8>::empty(), r),
    {
        let request = MockHttpRequest::new("HEAD", url);
        self.request(request)
    }

    /// Makes an OPTIONS request.
    pub fn options(&mut self, url: &str) -> (r: Result<MockHttpResponse, String>)
        ensures
            final(self).requested(*old(self), url@, "OPTIONS"@, Seq::<u8>::empty(), r),
    {
        let request = MockHttpRequest::new("OPTIONS", url);
        self.request(request)
    }

    /// Whether some request went to the given URL.
    pub fn history_contains_url(&self, url: &str) -> (r: bool)
        ensures
            r == exists|i: int|
                0 <= i < self.history_spec().len() && (#[trigger] self.history_spec()[i]).url@
                    == url@,
    {
        let owned = url.to_owned();
        let mut i: usize = 0;
        while i < self.request_history.len()
            invariant
                i <= self.history_spec().len(),
                owned@ == url@,
                forall|j: int| 0 <= j < i ==> (#[trigger] self.history_spec()[j]).url@ != url@,
            decreases self.history_spec().len() - i,
        {
            if self.request_history[i].url.eq(&owned) {
                return true;
            }
            i += 1;
        }
        false
    }

    /// Whether some request of the given method went to the given URL.
    pub fn history_contains_request(&self, method: &str, url: &str) -> (r: bool)
        ensures
            r == exists|i: int|
                0 <= i < self.history_spec().len() && (#[trigger] self.history_spec()[i]).url@
                    == url@ && self.history_spec()[i].method@ == method@,
    {
        let owned_method = method.to_owned();
        let owned_url = url.to_owned();
        let mut i: usize = 0;
        while i < self.request_history.len()
            invariant
                i <= self.history_spec().len(),
                owned_method@ == method@,
                owned_url@ == url@,
                forall|j: int| 0 <= j < i ==> !((#[trigger] self.history_spec()[j]).url@ == url@
                    && self.history_spec()[j].method@ == method@),
            decreases self.history_spec().len() - i,
        {
            if self.request_history[i].url.eq(&owned_url) && self.request_history[i].method.eq(
                &owned_method,
            ) {
                return true;
            }
            i += 1;
        }
        false
    }

    /// Whether some request to the given URL carried the given header.
    pub fn history_contains_header(&self, url: &str, name: &str, value: &str) -> (r: bool)
        ensures
            r == exists|i: int|
                0 <= i < self.history_spec().len() && (#[trigger] self.history_spec()[i]).url@
                    == url@ && header_listed(self.history_spec()[i].headers@, name@, value@),
    {
        let owned_url = url.to_owned();
        let owned_name = name.to_owned();
        let owned_value = value.to_owned();
        let mut i: usize = 0;
        while i < self.request_history.len()
            invariant
                i <= self.history_spec().len(),
                owned_url@ == url@,
                owned_name@ == name@,
                owned_value@ == value@,
                forall|j: int| 0 <= j < i ==> !((#[trigger] self.history_spec()[j]).url@ == url@
                    && header_listed(self.history_spec()[j].headers@, name@, value@)),
            decreases self.history_spec().len() - i,
        {
            if self.request_history[i].url.eq(&owned_url) && headers_list(
                &self.request_history[i].headers,
                &owned_name,
                &owned_value,
            ) {
                return true;
            }
            i += 1;
        }
        false
    }

    /// Whether some request to the given URL carried the given bytes
    /// somewhere in its body.
    pub fn history_contains_body(&self, url: &str, needle: &[u8]) -> (r: bool)
        ensures
            r == exists|i: int|
                0 <= i < self.history_spec().len() && (#[trigger] self.history_spec()[i]).url@
                    == url@ && contains_bytes(self.history_spec()[i].body@, needle@),
    {
        let owned_url = url.to_owned();
        let mut i: usize = 0;
        while i < self.request_history.len()
            invariant
                i <= self.history_spec().len(),
                owned_url@ == url@,
                forall|j: int| 0 <= j < i ==> !((#[trigger] self.history_spec()[j]).url@ == url@
                    && contains_bytes(self.history_spec()[j].body@, needle@)),
            decreases self.history_spec().len() - i,
        {
            if self.request_history[i].url.eq(&owned_url) && bytes_contain(
                &self.request_history[i].body,
                needle,
            ) {
                return true;
            }
            i += 1;
        }
        false
    }

    /// What one request of the given method, URL and body does to the
    /// client: it is recorded, and the oldest response queued under the URL
    /// is served and dropped — or the call fails with the queue untouched.
    pub open spec fn requested(
        self,
        pre: Self,
        url: Seq<char>,
        method: Seq<char>,
        body: Seq<u8>,
        r: Result<MockHttpResponse, String>,
    ) -> bool {
        &&& exists|rec: MockHttpRequest|
            #![trigger pre.history_spec().push(rec)]
            (self.history_spec() == pre.history_spec().push(rec)
            && rec.url@ == url && rec.method@ == method && rec.body@ == body
            && rec.headers@ == Seq::<(String, String)>::empty())
        &&& match r {
            Ok(response) => exists|i: int|
                0 <= i < pre.responses_spec().len()
                && (#[trigger] pre.responses_spec()[i]).0@ == url
                && (forall|j: int| 0 <= j < i ==> (#[trigger] pre.responses_spec()[j]).0@ != url)
                && response == pre.responses_spec()[i].1
                && self.responses_spec() == pre.responses_spec().remove(i),
            Err(_) => self.responses_spec() == pre.responses_spec() && (forall|j: int|
                0 <= j < pre.responses_spec().len() ==> (#[trigger] pre.responses_spec()[j]).0@
                    != url),
        }
    }
}


/// Whether a header list carries the given name with the given value.
pub open spec fn header_listed(headers: Seq<(String, String)>, name: Seq<char>, value: Seq<char>) -> bool {
    exists|j: int| 0 <= j < headers.len() && (#[trigger] headers[j]).0@ == name && headers[j].1@
        == value
}

/// Whether `needle` occurs as a contiguous run inside `hay`.
pub open spec fn contains_bytes(hay: Seq<u8>, needle: Seq<u8>) -> bool {
    exists|k: int| 0 <= k && k + needle.len() <= hay.len() && #[trigger] hay.subrange(
        k,
        k + needle.len(),
    ) == needle
}

/// Whether a header list carries the given name with the given value.
fn headers_list(headers: &Vec<(String, String)>, name: &String, value: &String) -> (r: bool)
    ensures
        r == header_listed(headers@, name@, value@),
{
    let mut j: usize = 0;
    while j < headers.len()
        invariant
            j <= headers@.len(),
            forall|k: int| 0 <= k < j ==> !((#[trigger] headers@[k]).0@ == name@ && headers@[k].1@
                == value@),
        decreases headers@.len() - j,
    {
        if headers[j].0.eq(name) && headers[j].1.eq(value) {
            return true;
        }
        j += 1;
    }
    false
}

/// Whether `needle` occurs as a contiguous run inside `hay`.
fn bytes_contain(hay: &Vec<u8>, needle: &[u8]) -> (r: bool)
    ensures
        r == contains_bytes(hay@, needle@),
{
    if needle.len() > hay.len() {
        return false;
    }
    let limit = hay.len() - needle.len();
    let mut k: usize = 0;
    while k < limit
        invariant
            needle@.len() <= hay@.len(),
            limit == hay@.len() - needle@.len(),
            k <= limit,
            forall|p: int| 0 <= p < k ==> #[trigger] hay@.subrange(p, p + needle@.len())
                != needle@,
        decreases limit - k,
    {
        if window_matches(hay, needle, k) {
            return true;
        }
        k += 1;
    }
    if window_matches(hay, needle, limit) {
        return true;
    }
    false
}

/// Whether the run of `hay` starting at `k` equals `needle`.
fn window_matches(hay: &Vec<u8>, needle: &[u8], k: usize) -> (r: bool)
    requires
        k + needle@.len() <= hay@.len(),
    ensures
        r == (hay@.subrange(k as int, k as int + needle@.len()) == needle@),
{
    let hay_len = hay.len();
    let mut j: usize = 0;
    while j < needle.len()
        invariant
            hay_len == hay@.len(),
            k + needle@.len() <= hay@.len(),
            j <= needle@.len(),
            forall|q: int| 0 <= q < j ==> hay@[k + q] == #[trigger] needle@[q],
        decreases needle@.len() - j,
    {
        if hay[k + j] != needle[j] {
            proof {
                assert(hay@.subrange(k as int, k as int + needle@.len())[j as int]
                    != needle@[j as int]);
            }
            return false;
        }
        j += 1;
    }
    proof {
        assert(hay@.subrange(k as int, k as int + needle@.len()) =~= needle@);
    }
    true
}

} // verus!
