//! The addresses of the backend's catalog.

use crate::text::{chars_of, push_char, push_text};
use vstd::prelude::*;

verus! {

/// Where the backend is reached when nothing else is said.
pub const BASE_URL: &'static str = "http://localhost:3000";

/// `s` without the characters `c` at its end.
pub open spec fn trim_end(s: Seq<char>, c: char) -> Seq<char>
    decreases s.len(),
{
    if s.len() > 0 && s.last() == c {
        trim_end(s.drop_last(), c)
    } else {
        s
    }
}

/// `s` without the characters `c` at its beginning.
pub open spec fn trim_start(s: Seq<char>, c: char) -> Seq<char>
    decreases s.len(),
{
    if s.len() > 0 && s[0] == c {
        trim_start(s.drop_first(), c)
    } else {
        s
    }
}

/// The address of `endpoint` under `base`: one slash between the two,
/// however many the base ends with and the endpoint begins with.
pub open spec fn url_under(base: Seq<char>, endpoint: Seq<char>) -> Seq<char> {
    trim_end(base, '/').push('/') + trim_start(endpoint, '/')
}

/// The backend, by its address.
#[derive(Debug, Clone, PartialEq, Eq)]
pub struct ApiService {
    base_url: String,
}

impl ApiService {
    /// The address of the backend.
    pub closed spec fn spec_base_url(&self) -> Seq<char> {
        self.base_url@
    }

    /// The backend at `base_url`.
    pub fn new(base_url: String) -> (service: ApiService)
        ensures
            service.spec_base_url() == base_url@,
    {
        ApiService { base_url }
    }

    /// The address of the backend.
    pub fn base_url(&self) -> (s: &str)
        ensures
            s@ == self.spec_base_url(),
    {
        self.base_url.as_str()
    }

    /// The address of `endpoint` at this backend.
    pub fn build_url(&self, endpoint: &str) -> (url: String)
        ensures
            url@ == url_under(self.spec_base_url(), endpoint@),
    {
        let base = chars_of(self.base_url.as_str());
        let path = chars_of(endpoint);
        let mut end: usize = base.len();
        proof {
            assert(base@.take(end as int) =~= base@);
        }
        while end > 0 && base[end - 1] == '/'
            invariant
                end <= base.len(),
                trim_end(base@, '/') == trim_end(base@.take(end as int), '/'),
            decreases end,
        {
            proof {
                assert(base@.take(end as int).drop_last() =~= base@.take(end - 1));
            }
            end -= 1;
        }
        let mut start: usize = 0;
        proof {
            assert(path@.skip(0) =~= path@);
        }
        while start < path.len() && path[start] == '/'
            invariant
                start <= path.len(),
                trim_start(path@, '/') == trim_start(path@.skip(start as int), '/'),
            decreases path.len() - start,
        {
            proof {
                assert(path@.skip(start as int).drop_first() =~= path@.skip(start + 1));
            }
            start += 1;
        }
        let mut url = String::new();
        let mut i: usize = 0;
        while i < end
            invariant
                i <= end <= base.len(),
                url@ == base@.take(i as int),
            decreases end - i,
        {
            push_char(&mut url, base[i]);
            proof {
                assert(base@.take(i as int).push(base@[i as int]) =~= base@.take(i + 1));
            }
            i += 1;
        }
        push_char(&mut url, '/');
        let ghost head = url@;
        let mut j: usize = start;
        while j < path.len()
            invariant
                start <= j <= path.len(),
                url@ == head + path@.subrange(start as int, j as int),
            decreases path.len() - j,
        {
            push_char(&mut url, path[j]);
            proof {
                assert(path@.subrange(start as int, j as int).push(path@[j as int])
                    =~= path@.subrange(start as int, j + 1));
                assert(url@ =~= head + path@.subrange(start as int, j + 1));
            }
            j += 1;
        }
        proof {
            assert(path@.subrange(start as int, path.len() as int) =~= path@.skip(start as int));
        }
        url
    }

    /// The endpoint of the engine `engine_id`.
    pub fn engine_endpoint(engine_id: &str) -> (endpoint: String)
        ensures
            endpoint@ == "engines/"@ + engine_id@,
    {
        let mut s = String::new();
        push_text(&mut s, "engines/");
        push_text(&mut s, engine_id);
        proof {
            assert(s@ =~= "engines/"@ + engine_id@);
        }
        s
    }
}

impl Default for ApiService {
    /// The backend at `BASE_URL`.
    fn default() -> (service: ApiService)
        ensures
            service.spec_base_url() == BASE_URL@,
    {
        ApiService { base_url: String::from_str(BASE_URL) }
    }
}

} // verus!
