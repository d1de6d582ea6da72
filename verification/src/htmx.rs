//! Reading the headers htmx sends with its requests, and the headers a
//! response uses to steer htmx.

use vstd::prelude::*;
use vstd::string::StringExecFns;

use crate::responses::{is_reply, Reply};
use crate::util::text::{ascii_chars, lemma_ascii_bytes_decode, opt_str, opt_text, string_from_utf8};

verus! {

/// The response header pair asking htmx to redirect to `redirect_url`.
pub fn hx_redirect(redirect_url: &str) -> (r: (&'static str, &str))
    ensures
        r.0@ == "HX-Redirect"@,
        r.1@ == redirect_url@,
{
    ("HX-Redirect", redirect_url)
}

/// The response header pair asking htmx to fire the client event `event`.
pub fn hx_trigger(event: &str) -> (r: (&'static str, &str))
    ensures
        r.0@ == "HX-Trigger"@,
        r.1@ == event@,
{
    ("HX-Trigger", event)
}

/// One request header: its name in lowercase, as `http` stores it, and its
/// raw value.
pub struct Header {
    pub name: String,
    pub value: Vec<u8>,
}

impl View for Header {
    type V = (Seq<char>, Seq<u8>);

    open spec fn view(&self) -> (Seq<char>, Seq<u8>) {
        (self.name@, self.value@)
    }
}

/// The value of the first header called `name`, as `HeaderMap::get` finds it.
pub open spec fn header_lookup(headers: Seq<(Seq<char>, Seq<u8>)>, name: Seq<char>) -> Option<Seq<u8>>
    decreases headers.len(),
{
    if headers.len() == 0 {
        None
    } else if headers[0].0 == name {
        Some(headers[0].1)
    } else {
        header_lookup(headers.drop_first(), name)
    }
}

/// The headers' views, in order.
pub open spec fn headers_view(headers: Seq<Header>) -> Seq<(Seq<char>, Seq<u8>)> {
    headers.map_values(|h: Header| h@)
}

/// Whether `HeaderValue::to_str` accepts a byte: visible ASCII or a tab.
pub open spec fn is_visible_ascii(b: u8) -> bool {
    (32 <= b && b < 127) || b == 9
}

/// The text `HeaderValue::to_str` gives for a value: `None` unless every
/// byte is visible ASCII or a tab.
pub open spec fn header_value_text(value: Seq<u8>) -> Option<Seq<char>> {
    if forall|i: int| 0 <= i < value.len() ==> #[trigger] is_visible_ascii(value[i]) {
        Some(ascii_chars(value))
    } else {
        None
    }
}

/// A header value reads as text exactly when every byte is printable
/// ASCII (space through tilde, 32 to 126) or a tab, as `HeaderValue::to_str`
/// accepts; it then reads as those bytes taken as characters.
pub proof fn lemma_header_value_readable(value: Seq<u8>)
    ensures
        (forall|i: int| 0 <= i < value.len() ==> (32 <= #[trigger] value[i] <= 126 || value[i] == 9))
            ==> header_value_text(value) == Some(Seq::new(value.len(), |i: int| value[i] as char)),
        (exists|i: int| 0 <= i < value.len() && !(32 <= #[trigger] value[i] <= 126 || value[i] == 9))
            ==> header_value_text(value) is None,
{
    if forall|i: int| 0 <= i < value.len() ==> (32 <= #[trigger] value[i] <= 126 || value[i] == 9) {
        assert forall|i: int| 0 <= i < value.len() implies #[trigger] is_visible_ascii(value[i]) by {
            assert(32 <= value[i] <= 126 || value[i] == 9);
        }
        assert(ascii_chars(value) =~= Seq::new(value.len(), |i: int| value[i] as char));
    }
    if exists|i: int| 0 <= i < value.len() && !(32 <= #[trigger] value[i] <= 126 || value[i] == 9) {
        let i = choose|i: int| 0 <= i < value.len() && !(32 <= #[trigger] value[i] <= 126 || value[i] == 9);
        assert(!is_visible_ascii(value[i]));
    }
}

/// The text of the first header called `name`, when it exists and is
/// readable as text.
pub open spec fn header_text(headers: Seq<(Seq<char>, Seq<u8>)>, name: Seq<char>) -> Option<Seq<char>> {
    match header_lookup(headers, name) {
        Some(v) => header_value_text(v),
        None => None,
    }
}

/// Finds the first header called `name`.
fn find_header<'a>(headers: &'a [Header], name: &str) -> (r: Option<&'a Header>)
    ensures
        match r {
            Some(h) => header_lookup(headers_view(headers@), name@) == Some(h.value@),
            None => header_lookup(headers_view(headers@), name@) is None,
        },
{
    let query = String::from_str(name);
    let mut i: usize = 0;
    assert(headers@.skip(0) =~= headers@);
    while i < headers.len()
        invariant
            0 <= i <= headers@.len(),
            query@ == name@,
            header_lookup(headers_view(headers@), name@) == header_lookup(
                headers_view(headers@.skip(i as int)),
                name@,
            ),
        decreases headers@.len() - i,
    {
        let ghost rest = headers_view(headers@.skip(i as int));
        assert(rest[0] == headers[i as int]@);
        assert(rest.drop_first() =~= headers_view(headers@.skip(i + 1)));
        if headers[i].name == query {
            return Some(&headers[i]);
        }
        i = i + 1;
    }
    assert(headers_view(headers@.skip(i as int)).len() == 0);
    None
}

/// Reads a header value as `HeaderValue::to_str` does.
fn value_text(value: &Vec<u8>) -> (r: Option<String>)
    ensures
        match r {
            Some(s) => header_value_text(value@) == Some(s@),
            None => header_value_text(value@) is None,
        },
{
    let mut i: usize = 0;
    while i < value.len()
        invariant
            0 <= i <= value@.len(),
            forall|j: int| 0 <= j < i ==> #[trigger] is_visible_ascii(value@[j]),
        decreases value@.len() - i,
    {
        let b = value[i];
        if !((32 <= b && b < 127) || b == 9) {
            assert(!is_visible_ascii(value@[i as int]));
            return None;
        }
        i = i + 1;
    }
    proof {
        assert forall|j: int| 0 <= j < value@.len() implies #[trigger] value@[j] < 128 by {
            assert(is_visible_ascii(value@[j]));
        }
        lemma_ascii_bytes_decode(value@);
    }
    string_from_utf8(value.clone())
}

/// The text of the first header called `name`, when it exists and is
/// readable as text.
pub fn get_header_text(headers: &[Header], name: &str) -> (r: Option<String>)
    ensures
        match r {
            Some(s) => header_text(headers_view(headers@), name@) == Some(s@),
            None => header_text(headers_view(headers@), name@) is None,
        },
{
    match find_header(headers, name) {
        Some(h) => value_text(&h.value),
        None => None,
    }
}

/// Whether a header called `name` is present.
pub fn has_header(headers: &[Header], name: &str) -> (r: bool)
    ensures
        r == header_lookup(headers_view(headers@), name@) is Some,
{
    find_header(headers, name).is_some()
}

/// Each detail of a request comes from its own header: whether it was
/// boosted from `HX-Boosted`, the prompt from `HX-Prompt`, the target from
/// `HX-Target`, the trigger from `HX-Trigger` and the trigger's name from
/// `HX-Trigger-Name`; so two requests whose headers agree on one of these
/// agree on that detail, whatever the other headers hold.
pub proof fn lemma_request_details_follow_their_headers(
    a: HtmxRequest,
    b: HtmxRequest,
    ha: Seq<(Seq<char>, Seq<u8>)>,
    hb: Seq<(Seq<char>, Seq<u8>)>,
)
    requires
        a.read_from(ha),
        b.read_from(hb),
    ensures
        header_lookup(ha, "hx-boosted"@) is Some == header_lookup(hb, "hx-boosted"@) is Some
            ==> a.spec_is_boosted() == b.spec_is_boosted(),
        header_text(ha, "hx-prompt"@) == header_text(hb, "hx-prompt"@) ==> a.spec_prompt() == b.spec_prompt(),
        header_text(ha, "hx-target"@) == header_text(hb, "hx-target"@) ==> a.spec_target() == b.spec_target(),
        header_text(ha, "hx-trigger"@) == header_text(hb, "hx-trigger"@) ==> a.spec_trigger() == b.spec_trigger(),
        header_text(ha, "hx-trigger-name"@) == header_text(hb, "hx-trigger-name"@)
            ==> a.spec_trigger_name() == b.spec_trigger_name(),
        a.spec_trigger() == header_text(ha, "hx-trigger"@),
        a.spec_trigger_name() == header_text(ha, "hx-trigger-name"@),
{
}

/// Whether a request came from htmx (it carries an `HX-Request` header).
pub struct IsHtmx(pub bool);

impl IsHtmx {
    /// Looks for the `HX-Request` header.
    pub fn new(headers: &[Header]) -> (r: IsHtmx)
        ensures
            r.0 == header_lookup(headers_view(headers@), "hx-request"@) is Some,
    {
        IsHtmx(has_header(headers, "hx-request"))
    }

    /// The answer.
    pub fn get(&self) -> (r: bool)
        ensures
            r == self.0,
    {
        self.0
    }
}

/// Whether a request came from htmx.
pub fn is_htmx(headers: &[Header]) -> (r: bool)
    ensures
        r == header_lookup(headers_view(headers@), "hx-request"@) is Some,
{
    IsHtmx::new(headers).0
}

/// The details htmx sends along with a request.
pub struct HtmxRequest {
    is_boosted: bool,
    prompt: Option<String>,
    target: Option<String>,
    trigger: Option<String>,
    trigger_name: Option<String>,
}

/// Borrows the text of an optional string.
fn as_opt_str(o: &Option<String>) -> (r: Option<&str>)
    ensures
        opt_str(r) == opt_text(*o),
{
    match o {
        Some(s) => Some(s.as_str()),
        None => None,
    }
}

impl HtmxRequest {
    pub closed spec fn spec_is_boosted(&self) -> bool {
        self.is_boosted
    }

    pub closed spec fn spec_prompt(&self) -> Option<Seq<char>> {
        opt_text(self.prompt)
    }

    pub closed spec fn spec_target(&self) -> Option<Seq<char>> {
        opt_text(self.target)
    }

    pub closed spec fn spec_trigger(&self) -> Option<Seq<char>> {
        opt_text(self.trigger)
    }

    pub closed spec fn spec_trigger_name(&self) -> Option<Seq<char>> {
        opt_text(self.trigger_name)
    }

    /// Whether the request's details are those `headers` carry: whether
    /// `HX-Boosted` is present and the readable text of `HX-Prompt`,
    /// `HX-Target`, `HX-Trigger` and `HX-Trigger-Name`.
    pub open spec fn read_from(&self, headers: Seq<(Seq<char>, Seq<u8>)>) -> bool {
        &&& self.spec_is_boosted() == header_lookup(headers, "hx-boosted"@) is Some
        &&& self.spec_prompt() == header_text(headers, "hx-prompt"@)
        &&& self.spec_target() == header_text(headers, "hx-target"@)
        &&& self.spec_trigger() == header_text(headers, "hx-trigger"@)
        &&& self.spec_trigger_name() == header_text(headers, "hx-trigger-name"@)
    }

    /// Reads the htmx headers of a request that has to come from htmx; one
    /// without `HX-Request` is answered with 400.
    pub fn from_headers(headers: &[Header]) -> (r: Result<HtmxRequest, Reply>)
        ensures
            r is Ok <==> header_lookup(headers_view(headers@), "hx-request"@) is Some,
            r matches Ok(req) ==> req.read_from(headers_view(headers@)),
            r matches Ok(req) ==> {
                &&& req.spec_is_boosted() == header_lookup(headers_view(headers@), "hx-boosted"@) is Some
                &&& req.spec_prompt() == header_text(headers_view(headers@), "hx-prompt"@)
                &&& req.spec_target() == header_text(headers_view(headers@), "hx-target"@)
                &&& req.spec_trigger() == header_text(headers_view(headers@), "hx-trigger"@)
                &&& req.spec_trigger_name() == header_text(headers_view(headers@), "hx-trigger-name"@)
            },
            r matches Err(reply) ==> is_reply(reply, 400, None, "Expected an HTMX request."@),
    {
        match HtmxRequest::new(headers) {
            Some(req) => Ok(req),
            None => Err(Reply::text(400, "Expected an HTMX request.")),
        }
    }

    /// Reads the htmx headers. `None` when the request carries no
    /// `HX-Request` header; otherwise whether `HX-Boosted` is present and the
    /// readable text of `HX-Prompt`, `HX-Target`, `HX-Trigger` and
    /// `HX-Trigger-Name`.
    pub fn new(headers: &[Header]) -> (r: Option<HtmxRequest>)
        ensures
            r is Some <==> header_lookup(headers_view(headers@), "hx-request"@) is Some,
            r matches Some(req) ==> req.read_from(headers_view(headers@)),
            r matches Some(req) ==> {
                &&& req.spec_is_boosted() == header_lookup(headers_view(headers@), "hx-boosted"@) is Some
                &&& req.spec_prompt() == header_text(headers_view(headers@), "hx-prompt"@)
                &&& req.spec_target() == header_text(headers_view(headers@), "hx-target"@)
                &&& req.spec_trigger() == header_text(headers_view(headers@), "hx-trigger"@)
                &&& req.spec_trigger_name() == header_text(headers_view(headers@), "hx-trigger-name"@)
            },
    {
        if !has_header(headers, "hx-request") {
            return None;
        }
        Some(
            HtmxRequest {
                is_boosted: has_header(headers, "hx-boosted"),
                prompt: get_header_text(headers, "hx-prompt"),
                target: get_header_text(headers, "hx-target"),
                trigger: get_header_text(headers, "hx-trigger"),
                trigger_name: get_header_text(headers, "hx-trigger-name"),
            },
        )
    }

    /// Whether the request was boosted.
    pub fn is_boosted(&self) -> (r: bool)
        ensures
            r == self.spec_is_boosted(),
    {
        self.is_boosted
    }

    /// The user's answer to an `hx-prompt`.
    pub fn prompt(&self) -> (r: Option<&str>)
        ensures
            opt_str(r) == self.spec_prompt(),
    {
        as_opt_str(&self.prompt)
    }

    /// The id of the target element.
    pub fn target(&self) -> (r: Option<&str>)
        ensures
            opt_str(r) == self.spec_target(),
    {
        as_opt_str(&self.target)
    }

    /// The id of the element that triggered the request.
    pub fn trigger(&self) -> (r: Option<&str>)
        ensures
            opt_str(r) == self.spec_trigger(),
    {
        as_opt_str(&self.trigger)
    }

    /// The name of the element that triggered the request.
    pub fn trigger_name(&self) -> (r: Option<&str>)
        ensures
            opt_str(r) == self.spec_trigger_name(),
    {
        as_opt_str(&self.trigger_name)
    }
}

} // verus!
