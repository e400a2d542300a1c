use vstd::prelude::*;
use vstd::string::StrSliceExecFns;

verus! {

/// `p` stands at the start of `s`.
pub open spec fn spec_has_prefix(s: Seq<char>, p: Seq<char>) -> bool {
    p.len() <= s.len() && s.subrange(0, p.len() as int) == p
}

/// A base URL is acceptable exactly when it carries one of the two
/// supported schemes; everything past the scheme is left to the HTTP
/// layer to judge.
pub open spec fn spec_valid_endpoint(s: Seq<char>) -> bool {
    spec_has_prefix(s, "http://"@) || spec_has_prefix(s, "https://"@)
}

fn has_prefix(s: &str, p: &str) -> (r: bool)
    ensures
        r == spec_has_prefix(s@, p@),
{
    let n = p.unicode_len();
    if n > s.unicode_len() {
        return false;
    }
    let mut i: usize = 0;
    while i < n
        invariant
            0 <= i <= n,
            n == p@.len() <= s@.len(),
            forall|j: int| 0 <= j < i ==> s@[j] == p@[j],
        decreases n - i,
    {
        if s.get_char(i) != p.get_char(i) {
            return false;
        }
        i += 1;
    }
    proof {
        assert(s@.subrange(0, n as int) =~= p@);
    }
    true
}

/// A validated base URL of the upstream relying-party API.
///
/// Invariant: the stored string begins with `http://` or `https://`.
/// The value is created once at startup and never changed afterwards.
pub struct Endpoint {
    url: String,
}

impl View for Endpoint {
    type V = Seq<char>;

    closed spec fn view(&self) -> Seq<char> {
        self.url@
    }
}

impl Endpoint {
    /// Every endpoint that exists carries a supported scheme.
    pub closed spec fn wf(&self) -> bool {
        spec_valid_endpoint(self.url@)
    }

    /// Syntactic pre-check of the upstream base URL: accepts exactly the
    /// strings that begin with `http://` or `https://`, and rejects the
    /// rest (the empty string among them) with a message.
    pub fn new(raw: String) -> (r: Result<Endpoint, String>)
        ensures
            r is Ok <==> spec_valid_endpoint(raw@),
            r matches Ok(e) ==> e@ == raw@ && e.wf(),
            r matches Err(m) ==> m@ == "Endpoint must start with http:// or https://"@,
    {
        if has_prefix(raw.as_str(), "http://") || has_prefix(raw.as_str(), "https://") {
            Ok(Endpoint { url: raw })
        } else {
            Err("Endpoint must start with http:// or https://".to_owned())
        }
    }

    /// The validated URL, for building request URLs on top of it.
    pub fn as_str(&self) -> (r: &str)
        ensures
            r@ == self@,
    {
        self.url.as_str()
    }
}

} // verus!
